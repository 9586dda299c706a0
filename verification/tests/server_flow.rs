use fabric_rpc_rs::client::{build_request, process_reply, RpcError};
use fabric_rpc_rs::fabricrpc_header::ReplyHeader;
use fabric_rpc_rs::server::{build_reply, Server, Service};
use fabric_rpc_rs::server_tr::{RequestQueue, ServerInternal, ServerRequest};
use fabric_rpc_rs::status::{Code, Status};
use fabric_rpc_rs::sys::{AwaitableCallback, Context, Message, MessageViewer};

struct Greeter;

impl Service for Greeter {
    fn name(&self) -> Vec<u8> {
        b"greet.Greeter".to_vec()
    }

    fn handle_request(&self, url: Vec<u8>, request: &Vec<u8>) -> Result<Vec<u8>, Status> {
        if url == b"/greet.Greeter/SayHello".to_vec() {
            let mut reply = b"Hello: ".to_vec();
            reply.extend_from_slice(request);
            Ok(reply)
        } else {
            Err(Status::unimplemented(b"url not found".to_vec()))
        }
    }
}

struct Duplicates;

impl Service for Duplicates {
    fn name(&self) -> Vec<u8> {
        b"todo.Todo".to_vec()
    }

    fn handle_request(&self, _url: Vec<u8>, _request: &Vec<u8>) -> Result<Vec<u8>, Status> {
        Err(Status::already_exists(b"duplicate id".to_vec()))
    }
}

fn mk_req(tag: &[u8]) -> ServerRequest {
    let msg = Message::create(Vec::new(), tag.to_vec());
    ServerRequest::new(msg, Context::new(AwaitableCallback::create()))
}

fn body_of(req: &ServerRequest) -> Vec<u8> {
    MessageViewer::new(req.get_request_msg()).get_body().clone()
}

#[test]
fn end_to_end_say_hello() {
    let mut server = Server::new();
    server.add_service(Greeter);

    // the client builds the request message
    let req_msg = build_request(b"/greet.Greeter/SayHello".to_vec(), b"Ada".to_vec());

    // the server processes it as one queued unit of work
    let ctx = Context::new(AwaitableCallback::create());
    let mut sreq = ServerRequest::new(req_msg, ctx);
    server.process_request(&mut sreq);
    let reply = sreq.get_reply_msg().unwrap();

    // the reply header carries OK and the client reads the body back
    let vw = MessageViewer::new(&reply);
    let h = ReplyHeader::decode(vw.get_header()).unwrap();
    assert_eq!(h.status_code, 0);
    let out = process_reply(&reply).unwrap();
    assert_eq!(out, b"Hello: Ada".to_vec());
}

#[test]
fn handler_status_reaches_client_without_body_decode() {
    let mut server = Server::new();
    server.add_service(Duplicates);

    let req_msg = build_request(b"/todo.Todo/AddOne".to_vec(), b"item".to_vec());
    let ctx = Context::new(AwaitableCallback::create());
    let mut sreq = ServerRequest::new(req_msg, ctx);
    server.process_request(&mut sreq);
    let reply = sreq.get_reply_msg().unwrap();

    match process_reply(&reply).unwrap_err() {
        RpcError::Remote(st) => {
            assert_eq!(st.code, Code::AlreadyExists);
            assert_eq!(st.message, b"duplicate id".to_vec());
        },
        other => panic!("expected a remote status, got {:?}", other),
    }
}

#[test]
fn non_ok_header_wins_over_any_body() {
    // even when bytes sit in the body, a non-OK header is surfaced as the
    // error and the body is never looked at
    let header = ReplyHeader { status_code: 6, status_message: b"duplicate id".to_vec() }.encode();
    let reply = Message::create(header, b"\x0Agarbage".to_vec());
    match process_reply(&reply).unwrap_err() {
        RpcError::Remote(st) => {
            assert_eq!(st.code, Code::AlreadyExists);
            assert_eq!(st.message, b"duplicate id".to_vec());
        },
        other => panic!("expected a remote status, got {:?}", other),
    }
}

#[test]
fn reply_header_parse_failure_is_protocol_error() {
    let reply = Message::create(vec![0x80], Vec::new());
    match process_reply(&reply).unwrap_err() {
        RpcError::Protocol(st) => {
            assert_eq!(st.code, Code::Internal);
            assert_eq!(st.message, b"failed to parse reply header".to_vec());
        },
        other => panic!("expected a protocol error, got {:?}", other),
    }
}

#[test]
fn bad_header_request_gets_invalid_argument_reply() {
    let server = Server::new();
    let msg = Message::create(vec![0x80], Vec::new());
    let mut sreq = ServerRequest::new(msg, Context::new(AwaitableCallback::create()));
    server.process_request(&mut sreq);
    let reply = sreq.get_reply_msg().unwrap();
    let vw = MessageViewer::new(&reply);
    let h = ReplyHeader::decode(vw.get_header()).unwrap();
    assert_eq!(h.status_code, 3);
    assert_eq!(h.status_message, b"header invalid, failed to parse".to_vec());
    assert!(vw.get_body().is_empty());
}

#[test]
fn unknown_url_request_gets_unimplemented_reply() {
    let mut server = Server::new();
    server.add_service(Greeter);
    let req_msg = build_request(b"/no.Svc/Method".to_vec(), b"x".to_vec());
    let mut sreq = ServerRequest::new(req_msg, Context::new(AwaitableCallback::create()));
    server.process_request(&mut sreq);
    let reply = sreq.get_reply_msg().unwrap();
    let vw = MessageViewer::new(&reply);
    let h = ReplyHeader::decode(vw.get_header()).unwrap();
    assert_eq!(h.status_code, 12);
    assert_eq!(h.status_message, b"url not found".to_vec());
    assert!(vw.get_body().is_empty());
}

#[test]
fn queues_are_independent_and_fifo() {
    let mut reg = ServerInternal::new();
    reg.push(b"c1".to_vec());
    reg.push(b"c2".to_vec());
    assert_eq!(reg.pop_connection().unwrap(), b"c1".to_vec());
    assert_eq!(reg.pop_connection().unwrap(), b"c2".to_vec());
    assert!(reg.pop_connection().is_none());

    reg.push_requst(&b"c1".to_vec(), mk_req(b"a1"));
    reg.push_requst(&b"c2".to_vec(), mk_req(b"b1"));
    reg.push_requst(&b"c1".to_vec(), mk_req(b"a2"));

    // popping one connection's queue leaves the other untouched, and each
    // queue keeps arrival order
    assert_eq!(body_of(&reg.pop_request(&b"c2".to_vec())), b"b1".to_vec());
    assert_eq!(body_of(&reg.pop_request(&b"c1".to_vec())), b"a1".to_vec());
    assert_eq!(body_of(&reg.pop_request(&b"c1".to_vec())), b"a2".to_vec());
}

#[test]
fn disconnect_drains_before_exit() {
    let mut reg = ServerInternal::new();
    reg.push(b"c1".to_vec());
    let accepted = reg.pop_connection().unwrap();
    assert_eq!(accepted, b"c1".to_vec());

    reg.push_requst(&b"c1".to_vec(), mk_req(b"r1"));
    reg.push_requst(&b"c1".to_vec(), mk_req(b"r2"));

    // disconnect removes the entry and hands back the closed queue
    let mut drained = reg.disconnect(&b"c1".to_vec());
    assert!(!reg.has_conn(&b"c1".to_vec()));
    assert!(drained.is_closed());

    // the identifier is free again: the same client may reconnect
    reg.push(b"c1".to_vec());
    assert!(reg.has_conn(&b"c1".to_vec()));

    // work already queued still comes out of the handed-over queue, in
    // order, and completes
    let mut r1 = drained.pop().unwrap();
    assert_eq!(body_of(&r1), b"r1".to_vec());
    r1.complete(build_reply(Ok(b"done".to_vec())));
    assert!(r1.get_reply_msg().is_some());

    let r2 = drained.pop().unwrap();
    assert_eq!(body_of(&r2), b"r2".to_vec());

    // only after the drain does the worker see the end marker
    assert!(drained.pop().is_none());
}

#[test]
fn request_queue_basics() {
    let mut q = RequestQueue::new(2);
    assert_eq!(q.len(), 0);
    assert!(!q.is_full());
    assert!(!q.is_closed());
    q.push(mk_req(b"x"));
    q.push(mk_req(b"y"));
    assert!(q.is_full());
    q.close();
    assert!(q.is_closed());
    assert_eq!(body_of(&q.pop().unwrap()), b"x".to_vec());
    assert_eq!(body_of(&q.pop().unwrap()), b"y".to_vec());
    assert!(q.pop().is_none());
}

#[test]
fn server_request_completes_exactly_once() {
    let mut req = mk_req(b"work");
    assert!(req.get_request_msg() == req.get_request_msg());
    req.complete(build_reply(Ok(b"answer".to_vec())));
    let reply = req.get_reply_msg().unwrap();
    let vw = MessageViewer::new(&reply);
    assert_eq!(vw.get_body(), &b"answer".to_vec());
}
