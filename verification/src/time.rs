//! Frequencies.
use vstd::prelude::*;

verus! {

/// A frequency in hertz.
#[derive(Debug, Clone, Copy, PartialEq, Eq, Structural)]
pub struct Hertz {
    pub raw: u32,
}

impl Hertz {
    /// The frequency of `raw` hertz.
    #[verifier::allow_in_spec]
    pub fn from_raw(raw: u32) -> Hertz
        returns
            (Hertz { raw }),
    {
        Hertz { raw }
    }

    /// The frequency in hertz.
    #[verifier::allow_in_spec]
    pub fn raw(&self) -> u32
        returns
            self.raw,
    {
        self.raw
    }
}

} // verus!
