use fabric_rpc_rs::rpc_build::{add, configure, Builder, ServiceGenerator};

#[test]
fn it_works() {
    let result = add(2, 2);
    assert_eq!(result, 4);
}

#[test]
fn builder_configure() {
    let b = configure();
    assert_eq!(b, Builder);
    let g = ServiceGenerator::new();
    assert_eq!(g, ServiceGenerator);
}
