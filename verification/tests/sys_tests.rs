use fabric_rpc_rs::sys::{AwaitableCallback, Context, Message, MessageViewer};

#[test]
fn test_callback() {
    let mut cb = AwaitableCallback::create();
    assert!(cb.invoke());
}

#[test]
fn callback_fires_only_once() {
    let mut cb = AwaitableCallback::create();
    assert!(cb.invoke());
    // a second attempt is detected and the signal is not delivered again
    assert!(!cb.invoke());
    assert!(!cb.invoke());
}

#[test]
fn test_ctx() {
    let cb = AwaitableCallback::create();
    let mut ctx = Context::new(cb);
    ctx.complete();
    assert!(ctx.is_completed());
}

#[test]
fn context_carries_result() {
    let mut ctx = Context::new(AwaitableCallback::create());
    let msg = Message::create(b"h".to_vec(), b"b".to_vec());
    ctx.set_msg(msg);
    ctx.complete();
    assert!(ctx.invoke_callback());
    let got = ctx.get_msg().unwrap();
    let vw = MessageViewer::new(&got);
    assert_eq!(vw.get_header(), &b"h".to_vec());
    assert_eq!(vw.get_body(), &b"b".to_vec());
}

#[test]
fn context_completes_exactly_once() {
    let mut ctx = Context::new(AwaitableCallback::create());
    // the first attempt completes; a duplicate is detected and rejected
    assert!(ctx.try_complete());
    assert!(!ctx.try_complete());
    assert!(ctx.is_completed());
}

#[test]
fn test_msg() {
    let header = String::from("myheader");
    let body = String::from("mybody");
    let msg = Message::create(header.clone().into_bytes(), body.clone().into_bytes());

    let msgvw = MessageViewer::new(&msg);
    let header_ret = msgvw.get_header();
    assert_eq!(header_ret.as_slice(), header.as_bytes());

    let body_ret = msgvw.get_body();
    assert_eq!(body_ret.as_slice(), body.as_bytes());
}
