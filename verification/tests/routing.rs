use fabric_rpc_rs::fabricrpc_header::{ReplyHeader, RequestHeader};
use fabric_rpc_rs::server::{build_reply, route, RouteDecision, Server, Service};
use fabric_rpc_rs::status::{Code, Status};
use fabric_rpc_rs::sys::MessageViewer;

struct EchoService;

impl Service for EchoService {
    fn name(&self) -> Vec<u8> {
        b"svc".to_vec()
    }

    fn handle_request(&self, _url: Vec<u8>, request: &Vec<u8>) -> Result<Vec<u8>, Status> {
        Ok(request.clone())
    }
}

struct SpecialService;

impl Service for SpecialService {
    fn name(&self) -> Vec<u8> {
        b"svc.special".to_vec()
    }

    fn handle_request(&self, _url: Vec<u8>, _request: &Vec<u8>) -> Result<Vec<u8>, Status> {
        Ok(b"special".to_vec())
    }
}

fn names(list: &[&[u8]]) -> Vec<Vec<u8>> {
    list.iter().map(|n| n.to_vec()).collect()
}

fn header_for(url: &[u8]) -> Vec<u8> {
    RequestHeader { url: url.to_vec() }.encode()
}

#[test]
fn route_unknown_url_is_unimplemented() {
    let ns = names(&[b"greet.Greeter"]);
    let header = header_for(b"/other.Svc/Method");
    match route(&ns, &header) {
        RouteDecision::Reject { status } => {
            assert_eq!(status.code, Code::Unimplemented);
            assert_eq!(status.message, b"url not found".to_vec());
            // and the reply built from it carries that status with an empty
            // body, so the connection stays usable
            let reply = build_reply(Err(status));
            let vw = MessageViewer::new(&reply);
            let h = ReplyHeader::decode(vw.get_header()).unwrap();
            assert_eq!(h.status_code, 12);
            assert_eq!(h.status_message, b"url not found".to_vec());
            assert!(vw.get_body().is_empty());
        },
        RouteDecision::Handle { .. } => panic!("unknown url must not dispatch"),
    }
}

#[test]
fn route_bad_header_is_invalid_argument() {
    let ns = names(&[b"svc"]);
    // a key varint cut short is not a request header
    let header = vec![0x80u8];
    match route(&ns, &header) {
        RouteDecision::Reject { status } => {
            assert_eq!(status.code, Code::InvalidArgument);
            assert_eq!(status.message, b"header invalid, failed to parse".to_vec());
        },
        RouteDecision::Handle { .. } => panic!("bad header must not dispatch"),
    }
}

#[test]
fn route_url_without_separator_is_invalid() {
    let ns = names(&[b"svc"]);
    for url in [&b"svc/Method"[..], &b""[..]] {
        let header = header_for(url);
        match route(&ns, &header) {
            RouteDecision::Reject { status } => {
                assert_eq!(status.code, Code::InvalidArgument);
                assert_eq!(status.message, b"url not valid".to_vec());
            },
            RouteDecision::Handle { .. } => panic!("invalid url must not dispatch"),
        }
    }
}

#[test]
fn route_first_registered_wins_on_shared_prefix() {
    let ns = names(&[b"svc", b"svc.special"]);
    let header = header_for(b"/svc.special/Method");
    match route(&ns, &header) {
        RouteDecision::Handle { index, url } => {
            assert_eq!(index, 0);
            assert_eq!(url, b"/svc.special/Method".to_vec());
        },
        RouteDecision::Reject { .. } => panic!("a matching name must dispatch"),
    }
}

#[test]
fn route_matches_later_service() {
    let ns = names(&[b"alpha", b"beta"]);
    let header = header_for(b"/beta/Run");
    match route(&ns, &header) {
        RouteDecision::Handle { index, .. } => assert_eq!(index, 1),
        RouteDecision::Reject { .. } => panic!("a matching name must dispatch"),
    }
}

#[test]
fn execute_dispatches_by_registration_order() {
    let mut server = Server::new();
    server.add_service(EchoService);
    server.add_service(SpecialService);
    let req = fabric_rpc_rs::client::build_request(
        b"/svc.special/Method".to_vec(),
        b"payload".to_vec(),
    );
    let vw = MessageViewer::new(&req);
    // first registered, first matched: the echo service answers
    let out = server.execute(&vw).unwrap();
    assert_eq!(out, b"payload".to_vec());
}

#[test]
fn execute_unknown_url_is_unimplemented() {
    let mut server = Server::new();
    server.add_service(EchoService);
    let req = fabric_rpc_rs::client::build_request(b"/nobody/Home".to_vec(), Vec::new());
    let vw = MessageViewer::new(&req);
    let st = server.execute(&vw).unwrap_err();
    assert_eq!(st.code, Code::Unimplemented);
    assert_eq!(st.message, b"url not found".to_vec());
}

#[test]
fn build_reply_success_carries_ok_header() {
    let reply = build_reply(Ok(b"content".to_vec()));
    let vw = MessageViewer::new(&reply);
    let h = ReplyHeader::decode(vw.get_header()).unwrap();
    assert_eq!(h.status_code, 0);
    assert_eq!(h.status_message, b"Ok".to_vec());
    assert_eq!(vw.get_body(), &b"content".to_vec());
}
