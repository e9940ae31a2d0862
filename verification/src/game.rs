//! Facts about the running game that the hooks decide on.
use vstd::prelude::*;

verus! {

/// The edition of the game, by the market it was published for.
#[derive(Clone, Copy, Debug, PartialEq, Eq, Structural)]
pub enum Region {
    Unknown,
    Japan,
    Taiwan,
    Korea,
    China,
    Global,
}

} // verus!
