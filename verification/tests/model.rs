use bincode_grpc::model::{Arg, FnInput, RpcInputError, RpcMethod, RpcSignature, Service};

fn recv(mutable: bool) -> FnInput {
    FnInput::Receiver {
        text: if mutable { "&mut self".to_string() } else { "&self".to_string() },
    }
}

fn typed(pat: &str, ty: &str, ident_pattern: bool) -> FnInput {
    FnInput::Typed { pat: pat.to_string(), ty: ty.to_string(), ident_pattern }
}

fn sig(inputs: Vec<FnInput>) -> RpcSignature {
    RpcSignature {
        attrs: vec!["#[doc = \"hi\"]".to_string()],
        ident: "say_hello".to_string(),
        inputs,
        output: Some("HelloReply".to_string()),
    }
}

#[test]
fn accepts_mut_receiver_with_named_params() {
    assert_eq!(sig(vec![recv(true), typed("req", "HelloRequest", true)]).check(), None);
    assert_eq!(sig(vec![recv(true)]).check(), None);
}

#[test]
fn accepts_receiver_without_mut() {
    let s = sig(vec![recv(false), typed("arg1", "HelloRequest", true)]);
    assert_eq!(s.check(), None);
    let rpc = RpcMethod::parse(&s);
    assert_eq!(rpc.receiver, "&self");
    assert_eq!(
        rpc.grpc_method(),
        "#[doc = \"hi\"] fn say_hello_grpc(&mut self, ctx: ::bincode_grpc::grpcio::RpcContext, req: (HelloRequest,), sink: ::bincode_grpc::grpcio::UnarySink<HelloReply>);"
    );
    assert_eq!(
        rpc.original_method(),
        "#[doc = \"hi\"] fn say_hello(&self, arg1: HelloRequest) -> HelloReply;"
    );
}

#[test]
fn refuses_second_receiver() {
    let s = sig(vec![recv(true), recv(true)]);
    assert_eq!(s.check(), Some(RpcInputError::DuplicatedReceiver));
    assert_eq!(RpcInputError::DuplicatedReceiver.message(), "duplicated self");
}

#[test]
fn refuses_pattern_params() {
    let s = sig(vec![recv(true), typed("(a, b)", "(u8, u8)", false)]);
    assert_eq!(s.check(), Some(RpcInputError::PatternArgument));
    assert_eq!(RpcInputError::PatternArgument.message(), "patterns aren't allowd in RPC args");
}

#[test]
fn refuses_missing_receiver() {
    let s = sig(vec![typed("req", "HelloRequest", true)]);
    assert_eq!(s.check(), Some(RpcInputError::MissingReceiver));
    assert_eq!(
        RpcInputError::MissingReceiver.message(),
        "called `Option::unwrap()` on a `None` value"
    );
}

#[test]
fn only_missing_receiver_is_found_after_inputs() {
    assert!(RpcInputError::DuplicatedReceiver.found_in_inputs());
    assert!(RpcInputError::PatternArgument.found_in_inputs());
    assert!(!RpcInputError::MissingReceiver.found_in_inputs());
}

#[test]
fn first_offending_input_decides() {
    let s = sig(vec![typed("_", "u8", false), recv(false)]);
    assert_eq!(s.check(), Some(RpcInputError::PatternArgument));
    let s = sig(vec![recv(false), recv(true), typed("_", "u8", false)]);
    assert_eq!(s.check(), Some(RpcInputError::DuplicatedReceiver));
    let s = sig(vec![recv(true), recv(true), typed("_", "u8", false)]);
    assert_eq!(s.check(), Some(RpcInputError::DuplicatedReceiver));
}

#[test]
fn parse_keeps_typed_params_in_order() {
    let s = sig(vec![
        typed("a", "u8", true),
        recv(true),
        typed("b", "String", true),
    ]);
    let rpc = RpcMethod::parse(&s);
    assert_eq!(rpc.ident, "say_hello");
    assert_eq!(rpc.receiver, "&mut self");
    assert_eq!(rpc.attrs, vec!["#[doc = \"hi\"]".to_string()]);
    assert_eq!(rpc.output, Some("HelloReply".to_string()));
    let args: Vec<(String, String)> = rpc.args.iter().map(|a: &Arg| (a.pat.clone(), a.ty.clone())).collect();
    assert_eq!(args, vec![("a".to_string(), "u8".to_string()), ("b".to_string(), "String".to_string())]);
}

#[test]
fn service_parse_reads_every_method() {
    let methods = vec![
        sig(vec![recv(true), typed("req", "HelloRequest", true)]),
        RpcSignature { attrs: vec![], ident: "ping".to_string(), inputs: vec![recv(true)], output: None },
    ];
    let s = Service::parse(vec![], "pub".to_string(), "Greeter".to_string(), &methods);
    assert_eq!(s.vis, "pub");
    assert_eq!(s.ident, "Greeter");
    assert_eq!(s.rpcs.len(), 2);
    assert_eq!(s.rpcs[0].ident, "say_hello");
    assert_eq!(s.rpcs[0].args.len(), 1);
    assert_eq!(s.rpcs[1].ident, "ping");
    assert_eq!(s.rpcs[1].args.len(), 0);
    assert_eq!(s.rpcs[1].output, None);
}
