//! The router and server core: decoding an inbound request header, picking
//! the registered service whose name prefixes the URL, invoking its handler,
//! and building the reply message. Header trouble and unknown URLs are
//! answered with a non-OK reply header, never by dropping the connection.

use vstd::prelude::*;
use vstd::string::StrSliceExecFns;
use vstd::string::StringSliceAdditionalSpecFns;

use crate::fabricrpc_header::{spec_decode_request, spec_encode_reply, RequestHeader, ReplyHeader};
use crate::server_tr::ServerRequest;
use crate::status::{Code, Status};
use crate::sys::{Message, MessageViewer};

verus! {

/// Every RPC service implements this: a name used as URL prefix, and a
/// handler from URL and body bytes to reply bytes or a status. What a
/// handler returns is the service's own business; the server promises
/// nothing about it and carries it through either way.
///
/// Handlers are synchronous: a handler that must wait does its waiting
/// inside the call and occupies its connection's worker for that long —
/// requests on other connections are unaffected.
pub trait Service: Send + Sync {
    /// The URL prefix under which the service is reached.
    fn name(&self) -> Vec<u8>;

    /// Handles one request; the reply body on success, a status otherwise.
    fn handle_request(&self, url: Vec<u8>, request: &Vec<u8>) -> Result<Vec<u8>, Status>;
}

// ---------------------------------------------------------------------------
// Routing.
// ---------------------------------------------------------------------------

/// Whether `p` is a prefix of `s`.
pub open spec fn spec_is_prefix(p: Seq<u8>, s: Seq<u8>) -> bool {
    p.len() <= s.len() && s.take(p.len() as int) == p
}

/// A URL the server accepts: non-empty and starting with the separator.
pub open spec fn spec_url_valid(url: Seq<u8>) -> bool {
    url.len() > 0 && url[0] == 47u8
}

/// The first index whose name prefixes `s`, if any. Registration order
/// decides when two names both match.
pub open spec fn spec_first_match(names: Seq<Seq<u8>>, s: Seq<u8>) -> Option<int>
    decreases names.len(),
{
    if names.len() == 0 {
        None
    } else if spec_is_prefix(names[0], s) {
        Some(0)
    } else {
        match spec_first_match(names.skip(1), s) {
            Some(i) => Some(i + 1),
            None => None,
        }
    }
}

/// What the first match is: a match, with none earlier; or no match at all.
pub proof fn lemma_first_match_props(names: Seq<Seq<u8>>, s: Seq<u8>)
    ensures
        match spec_first_match(names, s) {
            Some(i) => 0 <= i < names.len() && spec_is_prefix(names[i], s) && forall|j: int|
                0 <= j < i ==> !spec_is_prefix(names[j], s),
            None => forall|j: int| 0 <= j < names.len() ==> !spec_is_prefix(names[j], s),
        },
    decreases names.len(),
{
    if names.len() > 0 && !spec_is_prefix(names[0], s) {
        lemma_first_match_props(names.skip(1), s);
        match spec_first_match(names.skip(1), s) {
            Some(i) => {
                assert(names.skip(1)[i] == names[i + 1]);
                assert forall|j: int| 0 <= j < i + 1 implies !spec_is_prefix(names[j], s) by {
                    if j >= 1 {
                        assert(names[j] == names.skip(1)[j - 1]);
                    }
                }
            },
            None => {
                assert forall|j: int| 0 <= j < names.len() implies !spec_is_prefix(
                    names[j],
                    s,
                ) by {
                    if j >= 1 {
                        assert(names[j] == names.skip(1)[j - 1]);
                    }
                }
            },
        }
    }
}

/// What the router decides for one request header.
pub enum RouteDecision {
    /// Dispatch to the service at `index`, handing it the decoded URL.
    Handle { index: usize, url: Vec<u8> },
    /// Answer with `status` and an empty body, dispatching nowhere.
    Reject { status: Status },
}

fn is_prefix_at(p: &Vec<u8>, s: &Vec<u8>, off: usize) -> (b: bool)
    requires
        off <= s.len(),
    ensures
        b == spec_is_prefix(p@, s@.skip(off as int)),
{
    if p.len() > s.len() - off {
        return false;
    }
    let mut i: usize = 0;
    while i < p.len()
        invariant
            i <= p.len(),
            off + p.len() <= s.len(),
            forall|j: int| 0 <= j < i ==> p@[j] == s@[off + j],
        decreases p.len() - i,
    {
        if p[i] != s[off + i] {
            assert(s@.skip(off as int)[i as int] == s@[off + i]);
            return false;
        }
        i = i + 1;
    }
    assert(s@.skip(off as int).take(p@.len() as int) =~= p@);
    true
}

/// Routes one request header against the registered service names, first
/// registered first matched. The decision is total: a header that fails to
/// decode is rejected as invalid, a URL that is empty or misses its leading
/// separator likewise, a URL no name prefixes is rejected as unimplemented,
/// and otherwise the first matching service is picked.
pub fn route(names: &Vec<Vec<u8>>, header: &Vec<u8>) -> (r: RouteDecision)
    ensures
        spec_decode_request(header@) is None ==> (r matches RouteDecision::Reject { status }
            && status.code == Code::InvalidArgument && status.message@
            == "header invalid, failed to parse".spec_bytes()),
        spec_decode_request(header@) matches Some(url) ==> {
            &&& !spec_url_valid(url) ==> (r matches RouteDecision::Reject { status }
                && status.code == Code::InvalidArgument && status.message@
                == "url not valid".spec_bytes())
            &&& spec_url_valid(url) ==> {
                &&& spec_first_match(names.deep_view(), url.skip(1)) is None ==> (r matches
                    RouteDecision::Reject { status } && status.code == Code::Unimplemented
                    && status.message@ == "url not found".spec_bytes())
                &&& spec_first_match(names.deep_view(), url.skip(1)) matches Some(i) ==> (
                r matches RouteDecision::Handle { index, url: u } && index == i && u@ == url)
            }
        },
{
    let decoded = match RequestHeader::decode(header) {
        Err(_) => {
            return RouteDecision::Reject {
                status: Status::invalid_argument(
                    "header invalid, failed to parse".as_bytes_vec(),
                ),
            };
        },
        Ok(h) => h,
    };
    let url = decoded.url;
    if url.len() == 0 || url[0] != 47u8 {
        return RouteDecision::Reject { status: Status::invalid_argument("url not valid".as_bytes_vec()) };
    }
    let ghost stripped = url@.skip(1);
    proof {
        lemma_first_match_props(names.deep_view(), stripped);
    }
    let mut i: usize = 0;
    while i < names.len()
        invariant
            i <= names.len(),
            spec_decode_request(header@) == Some(url@),
            spec_url_valid(url@),
            stripped == url@.skip(1),
            forall|j: int| 0 <= j < i ==> !spec_is_prefix(names.deep_view()[j], stripped),
            spec_first_match(names.deep_view(), stripped) matches Some(k) ==> 0 <= k
                < names.deep_view().len() && spec_is_prefix(names.deep_view()[k], stripped)
                && forall|j: int| 0 <= j < k ==> !spec_is_prefix(names.deep_view()[j], stripped),
            spec_first_match(names.deep_view(), stripped) is None ==> forall|j: int|
                0 <= j < names.deep_view().len() ==> !spec_is_prefix(names.deep_view()[j], stripped),
        decreases names.len() - i,
    {
        assert(names.deep_view()[i as int] == names@[i as int]@);
        if is_prefix_at(&names[i], &url, 1) {
            return RouteDecision::Handle { index: i, url };
        }
        i = i + 1;
    }
    RouteDecision::Reject { status: Status::unimplemented("url not found".as_bytes_vec()) }
}

// ---------------------------------------------------------------------------
// Replies.
// ---------------------------------------------------------------------------

/// Builds the reply message for a handler outcome: on success the OK header
/// and the handler's bytes as body, on failure the status in the header and
/// an empty body.
pub fn build_reply(outcome: Result<Vec<u8>, Status>) -> (m: Message)
    ensures
        match outcome {
            Ok(content) => m@.header == spec_encode_reply(0, "Ok".spec_bytes()) && m@.body
                == content@,
            Err(st) => m@.header == spec_encode_reply(st.code.spec_value(), st.message@)
                && m@.body == Seq::<u8>::empty(),
        },
{
    let replyheader: ReplyHeader;
    let mut replybody: Vec<u8> = Vec::new();
    match outcome {
        Err(st) => {
            replyheader = ReplyHeader {
                status_code: st.code.value(),
                status_message: st.message,
            };
        },
        Ok(content) => {
            replyheader = ReplyHeader { status_code: 0, status_message: "Ok".as_bytes_vec() };
            replybody = content;
        },
    }
    let header_buff = replyheader.encode();
    Message::create(header_buff, replybody)
}

// ---------------------------------------------------------------------------
// The server.
// ---------------------------------------------------------------------------

/// One registration: a service and the name captured from it when it was
/// added. The pair lives in one entry, so the name list the router matches
/// against and the handler list it dispatches into cannot drift apart.
struct ServiceRegistration {
    name: Vec<u8>,
    svc: Box<dyn Service>,
}

/// A server: the registered services, matched in registration order. A
/// registration captures the service's name once, when it is added; the
/// set is fixed once serving starts. The listener and the per-connection
/// workers that call into it live with the runtime shell.
pub struct Server {
    svcs: Vec<ServiceRegistration>,
}

impl Server {
    /// The registered names, in registration order.
    pub closed spec fn spec_names(&self) -> Seq<Seq<u8>> {
        Seq::new(self.svcs@.len(), |i: int| self.svcs@[i].name@)
    }

    pub fn new() -> (s: Server)
        ensures
            s.spec_names() =~= Seq::<Seq<u8>>::empty(),
    {
        Server { svcs: Vec::new() }
    }

    /// Registers a service, capturing its name — the value its `name()`
    /// returned here, which the result hands back — at the end of the
    /// registration order, in the same entry as the handler. Legal only
    /// before serving starts (serving consumes the server); first
    /// registered wins when two names share a prefix — see `route` for the
    /// routing contract.
    pub fn add_service<T: Service + 'static>(&mut self, svc: T) -> (name: Vec<u8>)
        ensures
            final(self).spec_names() =~= old(self).spec_names().push(name@),
    {
        self.add_boxed_service(Box::new(svc))
    }

    /// Registers an already-boxed service: the shared core of
    /// `add_service`.
    pub fn add_boxed_service(&mut self, svc: Box<dyn Service>) -> (name: Vec<u8>)
        ensures
            final(self).spec_names() =~= old(self).spec_names().push(name@),
    {
        let name = svc.name();
        let registered = name.clone();
        let entry = ServiceRegistration { name, svc };
        proof {
            assert(entry.name@ =~= registered@);
        }
        self.push_entry(entry);
        registered
    }

    /// Appends one registration entry.
    fn push_entry(&mut self, entry: ServiceRegistration)
        ensures
            final(self).spec_names() =~= old(self).spec_names().push(entry.name@),
    {
        self.svcs.push(entry);
        proof {
            assert(self.spec_names() =~= old(self).spec_names().push(entry.name@));
        }
    }

    /// Decodes and routes one inbound request against the registered names
    /// and, when one matches, runs that service's handler. Every rejection
    /// is pinned down: an undecodable header and an ill-formed URL are
    /// invalid arguments, a URL no registered name prefixes is
    /// unimplemented. What a dispatched handler returns is carried through
    /// as-is.
    pub fn execute(&self, msgvw: &MessageViewer) -> (r: Result<Vec<u8>, Status>)
        ensures
            spec_decode_request(msgvw.msg@.header) is None ==> (r matches Err(st) && st.code
                == Code::InvalidArgument && st.message@
                == "header invalid, failed to parse".spec_bytes()),
            spec_decode_request(msgvw.msg@.header) matches Some(url) ==> {
                &&& !spec_url_valid(url) ==> (r matches Err(st) && st.code
                    == Code::InvalidArgument && st.message@ == "url not valid".spec_bytes())
                &&& spec_url_valid(url) && spec_first_match(self.spec_names(), url.skip(1))
                    is None ==> (r matches Err(st) && st.code == Code::Unimplemented
                    && st.message@ == "url not found".spec_bytes())
            },
    {
        let header_buff = msgvw.get_header();
        let body_buff = msgvw.get_body();

        let mut names: Vec<Vec<u8>> = Vec::new();
        let mut i: usize = 0;
        while i < self.svcs.len()
            invariant
                i <= self.svcs.len(),
                names@.len() == i,
                forall|j: int| 0 <= j < i ==> names@[j]@ == self.spec_names()[j],
            decreases self.svcs.len() - i,
        {
            let name = self.svcs[i].name.clone();
            proof {
                assert(name@ =~= self.svcs@[i as int].name@);
            }
            names.push(name);
            i = i + 1;
        }
        proof {
            assert forall|j: int|
                0 <= j < names@.len() implies names.deep_view()[j] == names@[j]@ by {
                assert(names@[j].deep_view() =~= names@[j]@);
            }
            assert(names.deep_view() =~= self.spec_names());
        }

        match route(&names, header_buff) {
            RouteDecision::Reject { status } => Err(status),
            RouteDecision::Handle { index, url } => {
                proof {
                    lemma_first_match_props(self.spec_names(), url@.skip(1));
                }
                self.svcs[index].svc.handle_request(url, body_buff)
            },
        }
    }

    /// Processes one queued server request to completion: runs the handler
    /// through the router, builds the reply message, and completes the
    /// request's context with it — exactly once.
    pub fn process_request(&self, req: &mut ServerRequest)
        requires
            !old(req).spec_completed(),
            old(req).spec_reply() is None,
        ensures
            final(req).spec_completed(),
            final(req).spec_callback_fired(),
            final(req).spec_reply() is Some,
            spec_decode_request(old(req).spec_msg().header) is None ==> (final(req).spec_reply()
                matches Some(reply) && reply.header == spec_encode_reply(
                Code::InvalidArgument.spec_value(),
                "header invalid, failed to parse".spec_bytes(),
            ) && reply.body == Seq::<u8>::empty()),
            spec_decode_request(old(req).spec_msg().header) matches Some(url)
                && !spec_url_valid(url) ==> (final(req).spec_reply() matches Some(reply)
                && reply.header == spec_encode_reply(
                Code::InvalidArgument.spec_value(),
                "url not valid".spec_bytes(),
            ) && reply.body == Seq::<u8>::empty()),
            spec_decode_request(old(req).spec_msg().header) matches Some(url)
                && spec_url_valid(url) && spec_first_match(self.spec_names(), url.skip(1))
                is None ==> (final(req).spec_reply() matches Some(reply) && reply.header
                == spec_encode_reply(
                Code::Unimplemented.spec_value(),
                "url not found".spec_bytes(),
            ) && reply.body == Seq::<u8>::empty()),
    {
        let msg = req.get_request_msg().clone();
        let vw = MessageViewer::new(&msg);
        let outcome = self.execute(&vw);
        let reply = build_reply(outcome);
        req.complete(reply);
    }
}

impl Default for Server {
    fn default() -> (s: Self)
        ensures
            s.spec_names() =~= Seq::<Seq<u8>>::empty(),
    {
        Server::new()
    }
}
} // verus!
