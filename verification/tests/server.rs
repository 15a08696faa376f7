use bincode_grpc::model::{Arg, RpcMethod};
use bincode_grpc::server::{server, ImplBlock, ImplFn, ImplInput, ImplItem};

fn say_hello_impl() -> ImplFn {
    ImplFn {
        text: "fn say_hello(&mut self, req: HelloRequest) -> HelloReply { HelloReply::default() }".to_string(),
        vis: "".to_string(),
        ident: "say_hello".to_string(),
        inputs: vec![
            ImplInput::Receiver("&mut self".to_string()),
            ImplInput::Typed { pat: "req".to_string(), ty: "HelloRequest".to_string() },
        ],
        output: Some("HelloReply".to_string()),
    }
}

fn ping_impl() -> ImplFn {
    ImplFn {
        text: "fn ping(&mut self) {}".to_string(),
        vis: "".to_string(),
        ident: "ping".to_string(),
        inputs: vec![ImplInput::Receiver("&mut self".to_string())],
        output: None,
    }
}

#[test]
fn serving_method_with_params() {
    assert_eq!(
        say_hello_impl().grpc_method(),
        " fn say_hello_grpc(&mut self, ctx: ::bincode_grpc::grpcio::RpcContext, req: (HelloRequest,), sink: ::bincode_grpc::grpcio::UnarySink<HelloReply>) { let (req, ) = req; let mut resp = self.say_hello(req, ); let f = sink.success(resp).map_err(move |e| ::bincode_grpc::tracing::error!(\"failed to reply {:?}\", e)).map(|_| ()); ctx.spawn(f) }"
    );
}

#[test]
fn serving_method_without_params() {
    assert_eq!(
        ping_impl().grpc_method(),
        " fn ping_grpc(&mut self, ctx: ::bincode_grpc::grpcio::RpcContext, _req: (), sink: ::bincode_grpc::grpcio::UnarySink<()>) { let mut resp = self.ping(); let f = sink.success(resp).map_err(move |e| ::bincode_grpc::tracing::error!(\"failed to reply {:?}\", e)).map(|_| ()); ctx.spawn(f) }"
    );
}

#[test]
fn serving_method_unpacks_every_param() {
    let f = ImplFn {
        text: String::new(),
        vis: "pub".to_string(),
        ident: "add".to_string(),
        inputs: vec![
            ImplInput::Receiver("&mut self".to_string()),
            ImplInput::Typed { pat: "a".to_string(), ty: "u32".to_string() },
            ImplInput::Typed { pat: "b".to_string(), ty: "u64".to_string() },
        ],
        output: Some("u64".to_string()),
    };
    let text = f.grpc_method();
    assert!(text.starts_with("pub fn add_grpc(&mut self, ctx: ::bincode_grpc::grpcio::RpcContext, req: (u32, u64,), "));
    assert!(text.contains("let (a, b, ) = req; let mut resp = self.add(a, b, );"));
}

#[test]
fn serving_method_matches_trait_method() {
    let r = RpcMethod {
        attrs: vec![],
        ident: "say_hello".to_string(),
        args: vec![Arg { pat: "req".to_string(), ty: "HelloRequest".to_string() }],
        receiver: "&mut self".to_string(),
        output: Some("HelloReply".to_string()),
    };
    let declared = r.grpc_method();
    let served = say_hello_impl().grpc_method();
    let signature = declared.trim_start().trim_end_matches(';');
    assert!(served.trim_start().starts_with(signature));
}

#[test]
fn server_keeps_items_and_adds_serving_methods() {
    let block = ImplBlock {
        header: "impl Greeter for GreeterServer".to_string(),
        inner_attrs: vec![],
        items: vec![
            ImplItem::Fn(say_hello_impl()),
            ImplItem::Other("type Unused = ();".to_string()),
            ImplItem::Fn(ping_impl()),
        ],
    };
    let text = server(&block);
    let expected = format!(
        "impl Greeter for GreeterServer {{  fn say_hello(&mut self, req: HelloRequest) -> HelloReply {{ HelloReply::default() }} type Unused = (); fn ping(&mut self) {{}} {} {} }}\n",
        say_hello_impl().grpc_method(),
        ping_impl().grpc_method()
    );
    assert_eq!(text, expected);
    let file = syn::parse_file(&text).expect("the expansion parses as items");
    assert_eq!(file.items.len(), 1);
}

#[test]
fn server_on_doc_example() {
    let block = ImplBlock {
        header: "impl Greeter for GreeterServer".to_string(),
        inner_attrs: vec![],
        items: vec![ImplItem::Fn(say_hello_impl())],
    };
    let text = server(&block);
    let file = syn::parse_file(&text).expect("the expansion parses as items");
    assert_eq!(file.items.len(), 1);
    match &file.items[0] {
        syn::Item::Impl(item) => {
            let names: Vec<String> = item
                .items
                .iter()
                .filter_map(|it| match it {
                    syn::ImplItem::Fn(f) => Some(f.sig.ident.to_string()),
                    _ => None,
                })
                .collect();
            assert_eq!(names, vec!["say_hello".to_string(), "say_hello_grpc".to_string()]);
        }
        _ => panic!("expected an impl"),
    }
}
