//! The validated configuration for one run: desired length and the
//! selected character classes.

use vstd::prelude::*;
use crate::letters::Letters;

verus! {

/// One configuration, collected once per outer-loop iteration and held
/// unchanged while sequences are regenerated from it.
#[derive(Copy, Clone, Debug, PartialEq, Eq, Structural)]
pub struct Options {
    pub len: usize,
    pub allowed_letters: Letters,
}

impl Options {
    /// The invariant the prompts enforce: a positive length and at least
    /// one enabled class.
    pub open spec fn valid(self) -> bool {
        self.len > 0 && self.allowed_letters.any_enabled()
    }
}

/// The length validator: accepts only positive lengths.
pub fn is_valid_length(x: usize) -> (r: bool)
    ensures
        r == (x > 0),
{
    x > 0
}

} // verus!
