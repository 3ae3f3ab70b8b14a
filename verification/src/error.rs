use vstd::prelude::*;

verus! {

/// The error kinds a call can fail with.  Each kind has a stable `u32`
/// wire code, preserved for host compatibility; `NoError` stands for the
/// zero code that the host reads as success and is never returned by the
/// library itself.
#[derive(Debug, Copy, Clone, PartialEq, Eq, Structural)]
pub enum ErrorCode {
    NoError,
    Mutex,
    Generation,
    NotImplemented,
    WebAssemblyCompile,
    WebAssemblyInstance,
    WebAssemblyExecution,
    ModuleNotParaforge,
    ModelGeneratorNotFound,
    ParameterCount,
    ParameterType,
    ParameterOutOfRange,
    OutputNotGLB,
    PointerTooLow,
    UnrecognizedErrorCode,
    HandleOutOfBounds,
    NotInitialized,
    SizeOutOfBounds,
    UnicodeError,
    VtxOutOfBounds,
    TriOutOfBounds,
}

impl ErrorCode {
    /// The stable wire code of this kind.
    pub open spec fn spec_code(self) -> u32 {
        match self {
            ErrorCode::NoError => 0,
            ErrorCode::Mutex => 1,
            ErrorCode::Generation => 2,
            ErrorCode::NotImplemented => 3,
            ErrorCode::WebAssemblyCompile => 4,
            ErrorCode::WebAssemblyInstance => 5,
            ErrorCode::WebAssemblyExecution => 6,
            ErrorCode::ModuleNotParaforge => 7,
            ErrorCode::ModelGeneratorNotFound => 8,
            ErrorCode::ParameterCount => 9,
            ErrorCode::ParameterType => 10,
            ErrorCode::ParameterOutOfRange => 11,
            ErrorCode::OutputNotGLB => 12,
            ErrorCode::PointerTooLow => 13,
            ErrorCode::UnrecognizedErrorCode => 14,
            ErrorCode::HandleOutOfBounds => 15,
            ErrorCode::NotInitialized => 16,
            ErrorCode::SizeOutOfBounds => 17,
            ErrorCode::UnicodeError => 18,
            ErrorCode::VtxOutOfBounds => 19,
            ErrorCode::TriOutOfBounds => 20,
        }
    }

    /// The stable wire code of this kind.
    pub fn code(self) -> (r: u32)
        ensures
            r == self.spec_code(),
    {
        match self {
            ErrorCode::NoError => 0,
            ErrorCode::Mutex => 1,
            ErrorCode::Generation => 2,
            ErrorCode::NotImplemented => 3,
            ErrorCode::WebAssemblyCompile => 4,
            ErrorCode::WebAssemblyInstance => 5,
            ErrorCode::WebAssemblyExecution => 6,
            ErrorCode::ModuleNotParaforge => 7,
            ErrorCode::ModelGeneratorNotFound => 8,
            ErrorCode::ParameterCount => 9,
            ErrorCode::ParameterType => 10,
            ErrorCode::ParameterOutOfRange => 11,
            ErrorCode::OutputNotGLB => 12,
            ErrorCode::PointerTooLow => 13,
            ErrorCode::UnrecognizedErrorCode => 14,
            ErrorCode::HandleOutOfBounds => 15,
            ErrorCode::NotInitialized => 16,
            ErrorCode::SizeOutOfBounds => 17,
            ErrorCode::UnicodeError => 18,
            ErrorCode::VtxOutOfBounds => 19,
            ErrorCode::TriOutOfBounds => 20,
        }
    }
}

/// Result type used by every fallible call of the library.
pub type FFIResult<T> = Result<T, ErrorCode>;

} // verus!
