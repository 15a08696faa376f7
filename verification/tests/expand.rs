use bincode_grpc::model::{Arg, RpcMethod, Service};
use bincode_grpc::service::service;

fn say_hello() -> RpcMethod {
    RpcMethod {
        attrs: vec![],
        ident: "say_hello".to_string(),
        args: vec![Arg { pat: "req".to_string(), ty: "HelloRequest".to_string() }],
        receiver: "&mut self".to_string(),
        output: Some("HelloReply".to_string()),
    }
}

fn ping() -> RpcMethod {
    RpcMethod {
        attrs: vec!["#[doc = \" ping \"]".to_string()],
        ident: "ping".to_string(),
        args: vec![],
        receiver: "&mut self".to_string(),
        output: None,
    }
}

fn greeter() -> Service {
    Service {
        attrs: vec!["#[allow(dead_code)]".to_string()],
        vis: "pub".to_string(),
        ident: "Greeter".to_string(),
        rpcs: vec![say_hello(), ping()],
    }
}

#[test]
fn req_and_resp_types() {
    assert_eq!(say_hello().req_type(), "(HelloRequest,)");
    assert_eq!(say_hello().resp_type(), "HelloReply");
    assert_eq!(ping().req_type(), "()");
    assert_eq!(ping().resp_type(), "()");
    let two = RpcMethod {
        attrs: vec![],
        ident: "add".to_string(),
        args: vec![
            Arg { pat: "a".to_string(), ty: "u32".to_string() },
            Arg { pat: "b".to_string(), ty: "Vec<u8>".to_string() },
        ],
        receiver: "&mut self".to_string(),
        output: Some("u64".to_string()),
    };
    assert_eq!(two.req_type(), "(u32, Vec<u8>,)");
    assert_eq!(
        two.original_method(),
        " fn add(&mut self, a: u32, b: Vec<u8>) -> u64;"
    );
}

#[test]
fn rpc_idents() {
    assert_eq!(say_hello().grpc_method_ident(), "say_hello_grpc");
    assert_eq!(say_hello().method_declaration_ident("Greeter"), "METHOD_GREETER_SAY_HELLO");
}

#[test]
fn grpc_method_text() {
    assert_eq!(
        say_hello().grpc_method(),
        " fn say_hello_grpc(&mut self, ctx: ::bincode_grpc::grpcio::RpcContext, req: (HelloRequest,), sink: ::bincode_grpc::grpcio::UnarySink<HelloReply>);"
    );
    assert_eq!(
        ping().grpc_method(),
        "#[doc = \" ping \"] fn ping_grpc(&mut self, ctx: ::bincode_grpc::grpcio::RpcContext, req: (), sink: ::bincode_grpc::grpcio::UnarySink<()>);"
    );
}

#[test]
fn original_method_text() {
    assert_eq!(ping().original_method(), "#[doc = \" ping \"] fn ping(&mut self, ) ;");
}

#[test]
fn method_declaration_text() {
    assert_eq!(
        say_hello().method_declaration("Greeter"),
        "const METHOD_GREETER_SAY_HELLO: ::bincode_grpc::grpcio::Method<(HelloRequest,), HelloReply> = ::bincode_grpc::grpcio::Method { ty: ::bincode_grpc::grpcio::MethodType::Unary, name: stringify!(METHOD_GREETER_SAY_HELLO), req_mar: ::bincode_grpc::grpcio::Marshaller { ser: ::bincode_grpc::bi_codec::ser, de: ::bincode_grpc::bi_codec::de, }, resp_mar: ::bincode_grpc::grpcio::Marshaller { ser: ::bincode_grpc::bi_codec::ser, de: ::bincode_grpc::bi_codec::de, }, };"
    );
}

#[test]
fn client_method_texts() {
    let r = say_hello();
    assert_eq!(
        r.client_method(),
        "fn say_hello(&self, req: &(HelloRequest,)) -> ::bincode_grpc::grpcio::Result<HelloReply> { self.say_hello_opt(req, ::bincode_grpc::grpcio::CallOption::default()) }"
    );
    assert_eq!(
        r.client_method_opt("Greeter"),
        "fn say_hello_opt(&self, req: &(HelloRequest,), opt: ::bincode_grpc::grpcio::CallOption) -> ::bincode_grpc::grpcio::Result<HelloReply> { self.client.unary_call(&METHOD_GREETER_SAY_HELLO, req, opt) }"
    );
    assert_eq!(
        r.client_method_async(),
        "fn say_hello_async(&self, req: &(HelloRequest,)) -> ::bincode_grpc::grpcio::Result<::grpcio::ClientUnaryReceiver<HelloReply>> { self.say_hello_async_opt(req, ::bincode_grpc::grpcio::CallOption::default()) }"
    );
    assert_eq!(
        r.client_method_async_opt("Greeter"),
        "fn say_hello_async_opt(&self, req: &(HelloRequest,), opt: ::bincode_grpc::grpcio::CallOption) -> ::bincode_grpc::grpcio::Result<::grpcio::ClientUnaryReceiver<HelloReply>> { self.client.unary_call_async(&METHOD_GREETER_SAY_HELLO, req, opt) }"
    );
}

#[test]
fn service_idents() {
    let s = greeter();
    assert_eq!(s.service_create_fn_ident(), "create_greeter");
    assert_eq!(s.client_ident(), "GreeterClient");
}

#[test]
fn client_struct_and_deref() {
    let s = greeter();
    assert_eq!(
        s.client_struct(),
        "#[derive(Clone)] pub struct GreeterClient { client: ::bincode_grpc::tonic::Client, }"
    );
    assert_eq!(
        s.client_deref(),
        "impl std::ops::Deref for GreeterClient { type Target = ::bincode_grpc::tonic::Client; fn deref(&self) -> &Self::Target { &self.client } }"
    );
}

#[test]
fn trait_service_text() {
    let s = greeter();
    assert_eq!(
        s.trait_service(),
        "#[allow(dead_code)] pub trait Greeter {  fn say_hello(&mut self, req: HelloRequest) -> HelloReply;  fn say_hello_grpc(&mut self, ctx: ::bincode_grpc::grpcio::RpcContext, req: (HelloRequest,), sink: ::bincode_grpc::grpcio::UnarySink<HelloReply>); #[doc = \" ping \"] fn ping(&mut self, ) ; #[doc = \" ping \"] fn ping_grpc(&mut self, ctx: ::bincode_grpc::grpcio::RpcContext, req: (), sink: ::bincode_grpc::grpcio::UnarySink<()>); }"
    );
}

#[test]
fn create_service_text() {
    let s = greeter();
    assert_eq!(
        s.create_service(),
        "pub fn create_greeter<S: Greeter + Send + Clone + 'static>(s: S) -> ::bincode_grpc::grpcio::Service { let mut builder = ::bincode_grpc::grpcio::ServiceBuilder::new(); let mut instance = s.clone(); builder = builder.add_unary_handler(&METHOD_GREETER_SAY_HELLO, move |ctx, req, resp| { instance.say_hello_grpc(ctx, req, resp) }); let mut instance = s.clone(); builder = builder.add_unary_handler(&METHOD_GREETER_PING, move |ctx, req, resp| { instance.ping_grpc(ctx, req, resp) }); builder.build() }"
    );
}

#[test]
fn method_declarations_cover_every_rpc() {
    let s = greeter();
    let decls = s.method_declarations();
    assert!(decls.starts_with("pub const METHOD_GREETER_SAY_HELLO: "));
    assert!(decls.contains("pub const METHOD_GREETER_PING: ::bincode_grpc::grpcio::Method<(), ()>"));
}

#[test]
fn client_impl_has_four_methods_per_rpc() {
    let s = greeter();
    let text = s.client_impl();
    assert!(text.starts_with("impl GreeterClient { pub fn new(channel: ::bincode_grpc::grpcio::Channel) -> Self"));
    for name in ["say_hello", "say_hello_opt", "say_hello_async", "say_hello_async_opt", "ping", "ping_opt", "ping_async", "ping_async_opt"] {
        assert!(text.contains(&format!("pub fn {}(&self", name)), "{}", name);
    }
}

#[test]
fn expansion_is_valid_rust() {
    let text = service(&greeter());
    let file = syn::parse_file(&text).expect("the expansion parses as items");
    assert_eq!(file.items.len(), 7);
    let mut tokens = String::from("// start\n");
    greeter().to_tokens(&mut tokens);
    assert_eq!(tokens, format!("// start\n{}", text));
}

#[test]
fn expansion_names_agree() {
    let text = service(&greeter());
    assert!(text.contains("const METHOD_GREETER_SAY_HELLO: "));
    assert!(text.contains("add_unary_handler(&METHOD_GREETER_SAY_HELLO, move |ctx, req, resp| { instance.say_hello_grpc("));
    assert!(text.contains(" fn say_hello_grpc("));
    assert!(text.contains("self.client.unary_call(&METHOD_GREETER_SAY_HELLO, req, opt)"));
    assert!(text.contains("self.client.unary_call_async(&METHOD_GREETER_SAY_HELLO, req, opt)"));
}

#[test]
fn shared_receiver_gets_mutable_serving_method() {
    let s = Service {
        attrs: vec![],
        vis: "pub".to_string(),
        ident: "Greeter".to_string(),
        rpcs: vec![RpcMethod {
            attrs: vec![],
            ident: "say_hello".to_string(),
            args: vec![Arg { pat: "arg1".to_string(), ty: "HelloRequest".to_string() }],
            receiver: "&self".to_string(),
            output: Some("HelloReply".to_string()),
        }],
    };
    assert_eq!(
        s.trait_service(),
        " pub trait Greeter {  fn say_hello(&self, arg1: HelloRequest) -> HelloReply;  fn say_hello_grpc(&mut self, ctx: ::bincode_grpc::grpcio::RpcContext, req: (HelloRequest,), sink: ::bincode_grpc::grpcio::UnarySink<HelloReply>); }"
    );
    syn::parse_file(&service(&s)).expect("the expansion parses as items");
}
