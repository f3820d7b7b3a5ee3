//! How much a batch task reports while it runs.

use vstd::prelude::*;

verus! {

/// The four reporting levels, from the most talkative to the least.
#[derive(Clone, Copy)]
pub enum Verbosity {
    Spammy,
    Verbose,
    Normal,
    Quiet,
}

impl Verbosity {
    /// Whether detailed progress is wanted: at `Verbose` and at `Spammy`.
    pub fn is_verbose(self) -> (out: bool)
        ensures
            out == (self is Verbose || self is Spammy),
    {
        matches!(self, Verbosity::Verbose | Verbosity::Spammy)
    }

    /// Whether every single step is wanted: at `Spammy` only.
    pub fn is_spammy(self) -> (out: bool)
        ensures
            out == (self is Spammy),
    {
        matches!(self, Verbosity::Spammy)
    }
}

} // verus!
