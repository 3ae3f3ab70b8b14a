use vstd::prelude::*;
use crate::error::ErrorCode;

verus! {

/// An (offset, size) pair describing a byte region of the library's
/// address space, as handed back across the flat numeric host boundary.
///
/// Offsets below `2^16` collide with the reserved error-code zone of the
/// packed return word, so they are rejected at construction.  Offset and
/// size are 32-bit words: the packed return value carries each in one
/// half of a `u64`.
pub struct FatPointer {
    offset: u32,
    size: u32,
}

impl FatPointer {
    pub closed spec fn spec_offset(self) -> u32 {
        self.offset
    }

    pub closed spec fn spec_size(self) -> u32 {
        self.size
    }

    /// Builds a pointer, rejecting offsets inside the reserved zone.
    pub fn try_new(offset: u32, size: u32) -> (r: Result<FatPointer, ErrorCode>)
        ensures
            offset < 0x10000 <==> r is Err,
            r is Err ==> r->Err_0 == ErrorCode::PointerTooLow,
            r is Ok ==> r->Ok_0.spec_offset() == offset && r->Ok_0.spec_size() == size,
    {
        if offset < 0x10000 {
            Err(ErrorCode::PointerTooLow)
        } else {
            Ok(FatPointer { offset, size })
        }
    }
}

/// What a call's successful result packs into the single `u64` return
/// word of the host boundary.
pub trait FFIValue: Sized {
    spec fn spec_pack(self) -> u64;

    fn pack(self) -> (r: u64)
        ensures
            r == self.spec_pack(),
    ;
}

impl FFIValue for () {
    open spec fn spec_pack(self) -> u64 {
        0
    }

    fn pack(self) -> u64 {
        0
    }
}

impl FFIValue for usize {
    open spec fn spec_pack(self) -> u64 {
        self as u64
    }

    fn pack(self) -> u64 {
        self as u64
    }
}

impl FFIValue for FatPointer {
    /// The offset rides in the high half, the size in the low half.
    closed spec fn spec_pack(self) -> u64 {
        (self.offset * 0x1_0000_0000 + self.size) as u64
    }

    fn pack(self) -> u64 {
        self.offset as u64 * 0x1_0000_0000 + self.size as u64
    }
}

} // verus!
