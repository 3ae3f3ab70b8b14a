use vstd::prelude::*;
use crate::error::ErrorCode;

verus! {

// Four scratch byte buffers, each capped at 64 bytes, through which the
// host passes UTF-8 names across the flat numeric boundary.  The host
// resizes a slot, writes into it, and the next consuming call reads it
// back as a string.

/// The slot cap in bytes.
pub const TRANSPORT_CAP: usize = 64;

/// Whether the bytes decode as UTF-8.
pub uninterp spec fn utf8_ok(s: Seq<u8>) -> bool;

/// Relies on `core::str::from_utf8`: whether the bytes are valid UTF-8.
#[verifier::external_body]
fn utf8_check(v: &Vec<u8>) -> (r: bool)
    ensures
        r == utf8_ok(v@),
{
    core::str::from_utf8(v.as_slice()).is_ok()
}

/// The four scratch slots.
pub struct StringTransport {
    pub slots: Vec<Vec<u8>>,
}

impl StringTransport {
    pub open spec fn wf(self) -> bool {
        &&& self.slots@.len() == 4
        &&& forall|i: int| 0 <= i < 4 ==> (#[trigger] self.slots@[i])@.len() <= TRANSPORT_CAP
    }

    /// Four empty slots.
    pub fn new() -> (r: StringTransport)
        ensures
            r.wf(),
            forall|i: int| 0 <= i < 4 ==> (#[trigger] r.slots@[i])@ == Seq::<u8>::empty(),
    {
        let mut slots: Vec<Vec<u8>> = Vec::new();
        slots.push(Vec::new());
        slots.push(Vec::new());
        slots.push(Vec::new());
        slots.push(Vec::new());
        StringTransport { slots }
    }

    /// Resizes a slot to `size` bytes (zero filled), leaving it alone
    /// when `size` is the sentinel `0xffffffff`; the host then writes
    /// into the region and reads it back through `read`.
    pub fn resize(&mut self, handle: usize, size: usize) -> (r: Result<(), ErrorCode>)
        requires
            old(self).wf(),
        ensures
            final(self).wf(),
            handle >= 4 ==> r == Err::<(), ErrorCode>(ErrorCode::HandleOutOfBounds) && *final(self)
                == *old(self),
            handle < 4 && size != 0xffffffff && size > TRANSPORT_CAP ==> r == Err::<
                (),
                ErrorCode,
            >(ErrorCode::SizeOutOfBounds) && *final(self) == *old(self),
            handle < 4 && size == 0xffffffff ==> r is Ok && *final(self) == *old(self),
            handle < 4 && size != 0xffffffff && size <= TRANSPORT_CAP ==> r is Ok && ({
                let s2 = final(self).slots@[handle as int]@;
                let s1 = old(self).slots@[handle as int]@;
                &&& final(self).slots@.len() == 4
                &&& forall|i: int|
                    0 <= i < 4 && i != handle ==> final(self).slots@[i] == old(self).slots@[i]
                &&& s2.len() == size
                &&& forall|k: int| 0 <= k < size && k < s1.len() ==> s2[k] == s1[k]
                &&& forall|k: int| s1.len() <= k < size ==> s2[k] == 0
            }),
    {
        if handle >= 4 {
            return Err(ErrorCode::HandleOutOfBounds);
        }
        if size != 0xffffffff {
            if size > TRANSPORT_CAP {
                return Err(ErrorCode::SizeOutOfBounds);
            }
            let slot = &mut self.slots[handle];
            slot.resize(size, 0);
        }
        Ok(())
    }

    /// Reads a slot back as UTF-8 bytes; invalid bytes fail with
    /// `UnicodeError`.
    pub fn read(&self, handle: usize) -> (r: Result<Vec<u8>, ErrorCode>)
        requires
            self.wf(),
        ensures
            handle >= 4 ==> r == Err::<Vec<u8>, ErrorCode>(ErrorCode::HandleOutOfBounds),
            handle < 4 && !utf8_ok(self.slots@[handle as int]@) ==> r == Err::<
                Vec<u8>,
                ErrorCode,
            >(ErrorCode::UnicodeError),
            handle < 4 && utf8_ok(self.slots@[handle as int]@) ==> r is Ok && r->Ok_0@
                == self.slots@[handle as int]@,
    {
        if handle >= 4 {
            return Err(ErrorCode::HandleOutOfBounds);
        }
        let slot = &self.slots[handle];
        if !utf8_check(slot) {
            return Err(ErrorCode::UnicodeError);
        }
        let copy = slot.clone();
        proof {
            assert(copy@ =~= self.slots@[handle as int]@);
        }
        Ok(copy)
    }
}

} // verus!
