//! Transport pieces shared by the client and server sides.

use vstd::prelude::*;

verus! {

/// The message disposer both sides hand the provider: it has nothing to
/// release, since every buffer is owned on this side of the boundary.
#[derive(Clone, Copy, Debug, PartialEq, Eq, Structural)]
pub struct MsgDispoer;

impl MsgDispoer {
    pub fn new() -> (d: MsgDispoer)
        ensures
            d == MsgDispoer,
    {
        MsgDispoer
    }
}

impl Default for MsgDispoer {
    fn default() -> (d: Self)
        ensures
            d == MsgDispoer,
    {
        MsgDispoer::new()
    }
}

} // verus!
