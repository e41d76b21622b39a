use vstd::prelude::*;

verus! {

/// Failures of the parameter codec.
#[derive(PartialEq, Eq, Structural, Clone, Copy, Debug)]
pub enum Error {
    /// Fewer than four bytes were available for a parameter header.
    ErrParamHeaderTooShort,
    /// The header's type tag is not the one the decoding variant expects.
    ErrParamTypeUnexpected,
}

} // verus!
