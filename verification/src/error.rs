use vstd::prelude::*;

verus! {

/// What can go wrong while opening, creating or finalizing a stream.
#[derive(Debug, PartialEq, Eq)]
pub enum DetectError {
    /// The requested compression level has no representation in the
    /// selected backend (LZ4 cannot store data uncompressed).
    InvalidInput,
    /// A failure reported by the compression backend, carrying its message.
    Io(String),
}

impl DetectError {
    /// A human-readable description of the error.
    pub fn message(&self) -> (r: String)
        ensures
            self == DetectError::InvalidInput ==> r@ == "LZ4 don't support non-compression mode"@,
            self matches DetectError::Io(m) ==> r@ == m@,
    {
        match self {
            DetectError::InvalidInput => "LZ4 don't support non-compression mode".to_owned(),
            DetectError::Io(m) => m.clone(),
        }
    }
}

} // verus!
