//! The global binary colour state.  Every enemy, bullet and hazard carries
//! one of the two values as its affinity tag; whether an interaction heals
//! or harms the player depends on whether the tag matches the global state
//! at the moment of contact.

use vstd::prelude::*;

verus! {

#[derive(Clone, Copy, PartialEq, Eq, Structural, Debug)]
pub enum ColorState {
    Primary,
    Secondary,
}

impl ColorState {
    /// The other colour state.
    pub open spec fn flip(self) -> ColorState {
        match self {
            ColorState::Primary => ColorState::Secondary,
            ColorState::Secondary => ColorState::Primary,
        }
    }

    /// Toggles the state.
    pub fn next(&self) -> (r: ColorState)
        ensures
            r == self.flip(),
            r != *self,
    {
        match self {
            ColorState::Secondary => ColorState::Primary,
            ColorState::Primary => ColorState::Secondary,
        }
    }
}

/// Toggling the colour state twice returns it to its original value.
pub proof fn lemma_toggle_twice_is_identity(s: ColorState)
    ensures
        s.flip().flip() == s,
{
}

} // verus!
