use vstd::prelude::*;

verus! {

/// Why a decode attempt failed.
#[derive(Debug, Clone, Copy, PartialEq, Eq, Structural)]
pub enum DecodeError {
    /// The buffer ends before the region that was asked for.
    Truncated,
    /// The magic-string region is not valid UTF-8.
    InvalidUtf8,
    /// A text-encoding code outside {1, 2, 3}.
    UnknownEncoding(u32),
}

} // verus!
