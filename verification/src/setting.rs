//! The theme of the user interface.

use vstd::prelude::*;

verus! {

/// The colour scheme.
#[derive(Debug, PartialEq, Eq, Structural, Clone, Copy)]
pub enum Theme {
    Dark,
    Light,
}

impl Theme {
    /// The other scheme.
    pub fn revert(&self) -> (r: Theme)
        ensures
            r == (match *self {
                Theme::Dark => Theme::Light,
                Theme::Light => Theme::Dark,
            }),
    {
        match self {
            Theme::Dark => Theme::Light,
            Theme::Light => Theme::Dark,
        }
    }
}

} // verus!
