//! Client-side transport pieces. The connection itself — opening the
//! native client, awaiting its connect and disconnect events, the request
//! round trip — is driven by the runtime shell; what the library owns here
//! is the handler the client registers for unsolicited one-way messages,
//! which this protocol never uses.

use vstd::prelude::*;

verus! {

/// The client's handler for one-way messages from the server: the protocol
/// is strictly request/reply, so it has nothing to do.
#[derive(Clone, Copy, Debug, PartialEq, Eq, Structural)]
pub struct ClientMsgHandler;

impl ClientMsgHandler {
    pub fn new() -> (h: ClientMsgHandler)
        ensures
            h == ClientMsgHandler,
    {
        ClientMsgHandler
    }
}

impl Default for ClientMsgHandler {
    fn default() -> (h: Self)
        ensures
            h == ClientMsgHandler,
    {
        ClientMsgHandler::new()
    }
}

} // verus!
