//! The client side of the RPC protocol: building the request message and
//! reading the reply. The transport call between the two — submitting the
//! request and awaiting its completion — belongs to the runtime shell; the
//! protocol work on either side of it is here.

use vstd::prelude::*;
use vstd::string::StrSliceExecFns;
use vstd::string::StringSliceAdditionalSpecFns;

use crate::fabricrpc_header::{
    spec_decode_reply, spec_encode_reply, spec_encode_request, ReplyHeader, RequestHeader,
};
use crate::status::{Code, Status};
use crate::sys::{Message, MessageViewer};

verus! {

/// Builds the wire message for one request: the URL schema-encoded into the
/// header, the caller's payload untouched as the body.
pub fn build_request(url: Vec<u8>, payload: Vec<u8>) -> (m: Message)
    ensures
        m@.header == spec_encode_request(url@),
        m@.body == payload@,
{
    let reqheader = RequestHeader { url };
    let headerbuf = reqheader.encode();
    Message::create(headerbuf, payload)
}

/// A client-side failure, by class: the transport failed to carry the
/// exchange, the reply violated the protocol, or the remote end answered
/// with a non-OK status. Reply processing produces the last two; the
/// runtime shell wraps what its transport reports in the first.
#[derive(Clone, Debug, PartialEq, Eq)]
pub enum RpcError {
    /// The transport could not carry the exchange.
    Transport(Status),
    /// The reply violated the protocol.
    Protocol(Status),
    /// The remote end answered with a non-OK status.
    Remote(Status),
}

/// Reads a reply message: decodes the reply header, surfaces a non-OK
/// status as the remote error it carries — the header status wins before
/// any look at the body — and otherwise hands back the body for the caller
/// to decode. A header that cannot be decoded is a protocol error.
pub fn process_reply(reply: &Message) -> (r: Result<Vec<u8>, RpcError>)
    ensures
        spec_decode_reply(reply@.header) is None ==> (r matches Err(RpcError::Protocol(st))
            && st.code == Code::Internal && st.message@
            == "failed to parse reply header".spec_bytes()),
        spec_decode_reply(reply@.header) matches Some(h) ==> {
            &&& h.0 != 0 ==> (r matches Err(RpcError::Remote(st)) && st.code == Code::spec_from(
                h.0,
            ) && st.message@ == h.1)
            &&& h.0 == 0 ==> (r matches Ok(body) && body@ == reply@.body)
        },
{
    let vw = MessageViewer::new(reply);
    let header_ret = vw.get_header();
    let body_ret = vw.get_body();

    let replyheader = match ReplyHeader::decode(header_ret) {
        Err(_) => {
            return Err(
                RpcError::Protocol(Status::internal("failed to parse reply header".as_bytes_vec())),
            );
        },
        Ok(h) => h,
    };

    let code = replyheader.status_code;
    let status_msg = replyheader.status_message;
    let code_enum = Code::from_i32(code);
    if code != 0 {
        return Err(RpcError::Remote(Status::new(code_enum, status_msg)));
    }

    let body = body_ret.clone();
    proof {
        assert(body@ =~= reply@.body);
    }
    Ok(body)
}

/// A status a server encodes into a reply header is exactly the status a
/// client reads back, for every code and well-formed message text: the
/// header codec keeps the code's number and the message, and the code
/// numbering is lossless, so an application error travels unchanged from
/// handler to caller.
pub proof fn lemma_status_travels(code: Code, msg: Seq<u8>)
    requires
        msg.len() <= u64::MAX,
        vstd::utf8::valid_utf8(msg),
    ensures
        spec_decode_reply(spec_encode_reply(code.spec_value(), msg)) == Some(
            (code.spec_value(), msg),
        ),
        Code::spec_from(code.spec_value()) == code,
{
    let v: i32 = code.spec_value() as i32;
    crate::fabricrpc_header::lemma_reply_roundtrip(v, msg);
    crate::status::lemma_code_value_roundtrip(code);
}

} // verus!
