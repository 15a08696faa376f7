//! What the generated code does, stated from the user's trait and impl
//! alone: each law spells out, from the names and types the user wrote, a
//! piece of code that the generated text must hold.
use vstd::prelude::*;

use crate::model::{Arg, RpcMethod, Service};
use crate::names::{fragment, shouty_snake_case};
use crate::rpc::{
    client_method_async_opt_text, client_method_async_text, client_method_opt_text,
    client_method_text, grpc_method_text, method_declaration_text, original_method_text,
};
use crate::server::{server_method_text, server_text, typed_pats, typed_types, ImplBlock, ImplFn, ImplItem};
use crate::service::{
    client_impl_text, create_service_text, method_declarations_text, registration_text,
    rpc_client_methods, trait_item, trait_service_text, visible_declaration,
};
use crate::text::{
    concat, join, lemma_occurs_concat, lemma_occurs_left, lemma_occurs_right, lemma_occurs_self,
    occurs_in, views,
};

verus! {

/// The request of an RPC: the tuple of its parameter types, with a trailing
/// comma, or `()` when it takes none.
pub open spec fn request_tuple(types: Seq<Seq<char>>) -> Seq<char> {
    if types.len() == 0 {
        "()"@
    } else {
        "("@ + join(types, ", "@) + ",)"@
    }
}

/// The response of an RPC: its declared result type, or `()`.
pub open spec fn response_of(output: Option<String>) -> Seq<char> {
    match output {
        Some(t) => t@,
        None => "()"@,
    }
}

/// The constant that names an RPC: `METHOD_<SERVICE>_<METHOD>`.
pub open spec fn method_constant(service: Seq<char>, method: Seq<char>) -> Seq<char> {
    "METHOD_"@ + shouty_snake_case(service) + "_"@ + shouty_snake_case(method)
}

/// The parameter types of an RPC, in order.
pub open spec fn param_types(args: Seq<Arg>) -> Seq<Seq<char>> {
    Seq::new(args.len(), |k: int| args[k].ty@)
}

/// A text stands between two others.
pub proof fn lemma_occurs_middle(pre: Seq<char>, needle: Seq<char>, post: Seq<char>)
    ensures
        occurs_in(needle, pre + needle + post),
{
    lemma_occurs_self(needle);
    lemma_occurs_right(needle, pre, needle);
    lemma_occurs_left(needle, pre + needle, post);
}

proof fn lemma_param_types(r: RpcMethod)
    ensures
        crate::rpc::rpc_req_type(r) == request_tuple(param_types(r.args@)),
        crate::rpc::rpc_resp_type(r) == response_of(r.output),
{
    assert(crate::rpc::arg_types(r.args@) =~= param_types(r.args@));
}

/// The start of an RPC's constant: the service's visibility, the name
/// `METHOD_<SERVICE>_<METHOD>`, the type `Method` from the RPC's request
/// tuple to its response type, and the name it gives the method.
pub open spec fn constant_head(s: Service, r: RpcMethod) -> Seq<char> {
    let c = method_constant(s.ident@, r.ident@);
    s.vis@ + " "@ + ("const "@ + c + ": ::bincode_grpc::grpcio::Method<"@ + request_tuple(
        param_types(r.args@),
    ) + ", "@ + response_of(r.output)
        + "> = ::bincode_grpc::grpcio::Method { ty: ::bincode_grpc::grpcio::MethodType::Unary, name: stringify!("@
        + c)
}

#[verifier::spinoff_prover]
proof fn lemma_constant_head(s: Service, r: RpcMethod)
    ensures
        occurs_in(constant_head(s, r), visible_declaration(s, r)),
{
    lemma_param_types(r);
    let c = method_constant(s.ident@, r.ident@);
    let tail = "), req_mar: ::bincode_grpc::grpcio::Marshaller { ser: ::bincode_grpc::bi_codec::ser, de: ::bincode_grpc::bi_codec::de, }, resp_mar: ::bincode_grpc::grpcio::Marshaller { ser: ::bincode_grpc::bi_codec::ser, de: ::bincode_grpc::bi_codec::de, }, };"@;
    let inner = "const "@ + c + ": ::bincode_grpc::grpcio::Method<"@ + request_tuple(
        param_types(r.args@),
    ) + ", "@ + response_of(r.output)
        + "> = ::bincode_grpc::grpcio::Method { ty: ::bincode_grpc::grpcio::MethodType::Unary, name: stringify!("@
        + c;
    assert(method_declaration_text(r, s.ident@) == inner + tail);
    assert(visible_declaration(s, r) == s.vis@ + " "@ + (inner + tail) + " "@);
    assert(s.vis@ + " "@ + (inner + tail) + " "@ =~= Seq::<char>::empty() + (s.vis@ + " "@ + inner)
        + (tail + " "@));
    lemma_occurs_middle(Seq::empty(), s.vis@ + " "@ + inner, tail + " "@);
}

/// Every RPC gets, among the service's constants, one named
/// `METHOD_<SERVICE>_<METHOD>` with the service's visibility, whose type is
/// a `Method` from the RPC's request tuple to its response type, and whose
/// name is the constant's own.
pub proof fn law_constant_per_rpc(s: Service, i: int)
    requires
        0 <= i < s.rpcs@.len(),
    ensures
        occurs_in(constant_head(s, s.rpcs@[i]), method_declarations_text(s)),
{
    let r = s.rpcs@[i];
    let pieces = s.rpcs@.map_values(|x: RpcMethod| visible_declaration(s, x));
    assert(pieces[i] == visible_declaration(s, r));
    lemma_occurs_concat(pieces, i);
    lemma_constant_head(s, r);
    crate::text::lemma_occurs_within(constant_head(s, r), pieces[i], concat(pieces));
    assert(method_declarations_text(s) == concat(pieces));
}

/// The blocking client method of an RPC: it calls the one with options,
/// with the default options.
pub open spec fn blocking_client(r: RpcMethod) -> Seq<char> {
    "fn "@ + r.ident@ + "(&self, req: &"@ + request_tuple(param_types(r.args@))
        + ") -> ::bincode_grpc::grpcio::Result<"@ + response_of(r.output) + "> { self."@
        + fragment(r.ident@) + "_opt"@ + "(req, ::bincode_grpc::grpcio::CallOption::default()) }"@
}

/// The blocking client method of an RPC with options: a unary call through
/// the RPC's constant.
pub open spec fn blocking_client_opt(service: Seq<char>, r: RpcMethod) -> Seq<char> {
    "fn "@ + fragment(r.ident@) + "_opt"@ + "(&self, req: &"@ + request_tuple(param_types(r.args@))
        + ", opt: ::bincode_grpc::grpcio::CallOption) -> ::bincode_grpc::grpcio::Result<"@
        + response_of(r.output) + "> { self.client.unary_call(&"@ + method_constant(
        service,
        r.ident@,
    ) + ", req, opt) }"@
}

/// The asynchronous client method of an RPC: it calls the asynchronous one
/// with options, with the default options.
pub open spec fn async_client(r: RpcMethod) -> Seq<char> {
    "fn "@ + fragment(r.ident@) + "_async"@ + "(&self, req: &"@ + request_tuple(
        param_types(r.args@),
    ) + ") -> ::bincode_grpc::grpcio::Result<::grpcio::ClientUnaryReceiver<"@ + response_of(
        r.output,
    ) + ">> { self."@ + fragment(r.ident@) + "_async_opt"@
        + "(req, ::bincode_grpc::grpcio::CallOption::default()) }"@
}

/// The asynchronous client method of an RPC with options: an asynchronous
/// unary call through the RPC's constant.
pub open spec fn async_client_opt(service: Seq<char>, r: RpcMethod) -> Seq<char> {
    "fn "@ + fragment(r.ident@) + "_async_opt"@ + "(&self, req: &"@ + request_tuple(
        param_types(r.args@),
    )
        + ", opt: ::bincode_grpc::grpcio::CallOption) -> ::bincode_grpc::grpcio::Result<::grpcio::ClientUnaryReceiver<"@
        + response_of(r.output) + ">> { self.client.unary_call_async(&"@ + method_constant(
        service,
        r.ident@,
    ) + ", req, opt) }"@
}

proof fn lemma_client_texts(service: Seq<char>, r: RpcMethod)
    ensures
        client_method_text(r) == blocking_client(r),
        client_method_opt_text(r, service) == blocking_client_opt(service, r),
        client_method_async_text(r) == async_client(r),
        client_method_async_opt_text(r, service) == async_client_opt(service, r),
{
    lemma_param_types(r);
    assert(client_method_text(r) =~= blocking_client(r));
    assert(client_method_opt_text(r, service) =~= blocking_client_opt(service, r));
    assert(client_method_async_text(r) =~= async_client(r));
    assert(client_method_async_opt_text(r, service) =~= async_client_opt(service, r));
}

/// Regrouping the last three parts of a text.
pub proof fn lemma_regroup(x: Seq<char>, a: Seq<char>, b: Seq<char>, c: Seq<char>)
    ensures
        x + a + b + c == x + (a + b + c),
{
    assert(x + a + b + c =~= x + (a + b + c));
}

/// The client holds, for every RPC, with the service's visibility, its
/// blocking method, which calls the blocking one with options, which makes
/// the unary call through the RPC's constant; and its asynchronous method,
/// which calls the asynchronous one with options, which makes the
/// asynchronous call through the same constant.
pub proof fn law_client_methods_per_rpc(s: Service, i: int)
    requires
        0 <= i < s.rpcs@.len(),
    ensures
        occurs_in(s.vis@ + " "@ + blocking_client(s.rpcs@[i]), client_impl_text(s)),
        occurs_in(s.vis@ + " "@ + blocking_client_opt(s.ident@, s.rpcs@[i]), client_impl_text(s)),
        occurs_in(s.vis@ + " "@ + async_client(s.rpcs@[i]), client_impl_text(s)),
        occurs_in(s.vis@ + " "@ + async_client_opt(s.ident@, s.rpcs@[i]), client_impl_text(s)),
{
    let r = s.rpcs@[i];
    let v = s.vis@;
    let sp = " "@;
    lemma_client_texts(s.ident@, r);
    let pieces = s.rpcs@.map_values(|x: RpcMethod| rpc_client_methods(s, x));
    assert(pieces[i] == rpc_client_methods(s, r));
    lemma_occurs_concat(pieces, i);
    let text = client_impl_text(s);
    assert(text == "impl "@ + crate::service::client_name(s.ident@) + " { "@ + s.vis@
        + " fn new(channel: ::bincode_grpc::grpcio::Channel) -> Self { Self { client: ::bincode_grpc::grpcio::Client::new(channel) } } "@
        + concat(pieces) + "}"@);
    assert(occurs_in(pieces[i], text)) by {
        broadcast use lemma_occurs_left;

        lemma_occurs_right(pieces[i], "impl "@ + crate::service::client_name(s.ident@) + " { "@ + s.vis@
            + " fn new(channel: ::bincode_grpc::grpcio::Channel) -> Self { Self { client: ::bincode_grpc::grpcio::Client::new(channel) } } "@, concat(pieces));
    }
    let m1 = client_method_text(r);
    let m2 = client_method_opt_text(r, s.ident@);
    let m3 = client_method_async_text(r);
    let m4 = client_method_async_opt_text(r, s.ident@);
    let x1 = v + sp + m1 + sp;
    let x2 = x1 + v + sp + m2 + sp;
    let x3 = x2 + v + sp + m3 + sp;
    assert(pieces[i] == x3 + v + sp + m4 + sp);
    assert(occurs_in(v + sp + m1, pieces[i])) by {
        broadcast use lemma_occurs_left;

        lemma_occurs_self(v + sp + m1);
    }
    assert(occurs_in(v + sp + m2, pieces[i])) by {
        broadcast use lemma_occurs_left;

        lemma_regroup(x1, v, sp, m2);
        lemma_occurs_self(v + sp + m2);
        lemma_occurs_right(v + sp + m2, x1, v + sp + m2);
    }
    assert(occurs_in(v + sp + m3, pieces[i])) by {
        broadcast use lemma_occurs_left;

        lemma_regroup(x2, v, sp, m3);
        lemma_occurs_self(v + sp + m3);
        lemma_occurs_right(v + sp + m3, x2, v + sp + m3);
    }
    assert(occurs_in(v + sp + m4, pieces[i])) by {
        broadcast use lemma_occurs_left;

        lemma_regroup(x3, v, sp, m4);
        lemma_occurs_self(v + sp + m4);
        lemma_occurs_right(v + sp + m4, x3, v + sp + m4);
    }
    crate::text::lemma_occurs_within(v + sp + m1, pieces[i], text);
    crate::text::lemma_occurs_within(v + sp + m2, pieces[i], text);
    crate::text::lemma_occurs_within(v + sp + m3, pieces[i], text);
    crate::text::lemma_occurs_within(v + sp + m4, pieces[i], text);
}

/// Each pattern followed by a comma, as in `(a, b, )`.
pub open spec fn patterns_with_commas(pats: Seq<Seq<char>>) -> Seq<char> {
    concat(Seq::new(pats.len(), |k: int| pats[k] + ", "@))
}

/// The reply of a serving method: it sends `resp` through the sink and
/// spawns the sending.
pub open spec fn sends_resp() -> Seq<char> {
    "let f = sink.success(resp).map_err(move |e| ::bincode_grpc::tracing::error!(\"failed to reply {:?}\", e)).map(|_| ()); ctx.spawn(f) }"@
}

/// The start of the serving method for `f`: its name, `&mut self`, the
/// call context, the request and the response sink.
pub open spec fn serving_head(f: ImplFn) -> Seq<char> {
    let param = if typed_pats(f.inputs@).len() > 0 {
        "req"@
    } else {
        "_req"@
    };
    f.vis@ + (" fn "@ + (fragment(f.ident@) + "_grpc"@) + "(&mut self"@ + (
    ", ctx: ::bincode_grpc::grpcio::RpcContext, "@ + param + ": "@ + request_tuple(
        typed_types(f.inputs@),
    ) + ", sink: ::bincode_grpc::grpcio::UnarySink<"@ + response_of(f.output) + ">"@) + ")"@)
        + " { "@
}

proof fn lemma_serving_parts(f: ImplFn)
    ensures
        server_method_text(f) == serving_head(f) + crate::server::serving_body(f),
        crate::server::pattern_list(typed_pats(f.inputs@)) == patterns_with_commas(
            typed_pats(f.inputs@),
        ),
{
    let pats = typed_pats(f.inputs@);
    assert(pats.map_values(|p: Seq<char>| p + ", "@) =~= Seq::new(
        pats.len(),
        |k: int| pats[k] + ", "@,
    ));
    assert(crate::rpc::req_type_text(typed_types(f.inputs@)) == request_tuple(
        typed_types(f.inputs@),
    ));
    assert(crate::rpc::resp_type_text(crate::model::opt_view(f.output)) == response_of(f.output));
}

/// The serving method that `#[server]` writes for a method of the impl is
/// named `<method>_grpc`, takes `&mut self`, the call context, the request
/// tuple of the method's parameter types and the sink for its response
/// type; its body unpacks the request into the method's parameter patterns,
/// calls the method with them, and sends what it returns.
pub proof fn law_serving_method_calls_user_method(f: ImplFn)
    ensures
        occurs_in(serving_head(f), server_method_text(f)),
        typed_pats(f.inputs@).len() > 0 ==> occurs_in(
            "let ("@ + patterns_with_commas(typed_pats(f.inputs@))
                + ") = req; let mut resp = self."@ + f.ident@ + "("@ + patterns_with_commas(
                typed_pats(f.inputs@),
            ) + "); "@ + sends_resp(),
            server_method_text(f),
        ),
        typed_pats(f.inputs@).len() == 0 ==> occurs_in(
            "let mut resp = self."@ + f.ident@ + "(); "@ + sends_resp(),
            server_method_text(f),
        ),
{
    lemma_serving_parts(f);
    let head = serving_head(f);
    let body = crate::server::serving_body(f);
    assert(occurs_in(head, server_method_text(f))) by {
        lemma_occurs_middle(Seq::empty(), head, body);
        assert(Seq::<char>::empty() + head + body =~= head + body);
    }
    assert(occurs_in(body, server_method_text(f))) by {
        lemma_occurs_middle(head, body, Seq::empty());
        assert(head + body + Seq::<char>::empty() =~= head + body);
    }
}

/// The registration of an RPC's handler: a clone of the service, and the
/// builder replaced by one that answers the RPC's constant by calling the
/// clone's serving method.
pub open spec fn handler_registration(service: Seq<char>, r: RpcMethod) -> Seq<char> {
    "let mut instance = s.clone(); builder = builder.add_unary_handler(&"@ + method_constant(
        service,
        r.ident@,
    ) + ", move |ctx, req, resp| { instance."@ + (fragment(r.ident@) + "_grpc"@)
        + "(ctx, req, resp) }); "@
}

/// The function that builds the service registers the handler of every
/// RPC, each time keeping the builder that holds it.
pub proof fn law_every_rpc_registered(s: Service, i: int)
    requires
        0 <= i < s.rpcs@.len(),
    ensures
        occurs_in(handler_registration(s.ident@, s.rpcs@[i]), create_service_text(s)),
{
    let r = s.rpcs@[i];
    let pieces = s.rpcs@.map_values(|x: RpcMethod| registration_text(s, x));
    assert(pieces[i] == registration_text(s, r));
    assert(registration_text(s, r) == handler_registration(s.ident@, r));
    lemma_occurs_concat(pieces, i);
    let fn_name = crate::names::create_fn_name(s.ident@);
    let pre = s.vis@ + " fn "@ + fn_name + "<S: "@ + s.ident@
        + " + Send + Clone + 'static>(s: S) -> ::bincode_grpc::grpcio::Service { let mut builder = ::bincode_grpc::grpcio::ServiceBuilder::new(); "@;
    assert(create_service_text(s) == pre + concat(pieces) + "builder.build() }"@);
    assert(occurs_in(pieces[i], create_service_text(s))) by {
        lemma_occurs_right(pieces[i], pre, concat(pieces));
        lemma_occurs_left(pieces[i], pre + concat(pieces), "builder.build() }"@);
    }
}

/// A method as the user declared it: attributes, name, receiver,
/// parameters and result type.
pub open spec fn declared_method(r: RpcMethod) -> Seq<char> {
    join(views(r.attrs@), " "@) + " fn "@ + r.ident@ + "("@ + r.receiver@ + ", "@ + join(
        Seq::new(r.args@.len(), |k: int| r.args@[k].pat@ + ": "@ + r.args@[k].ty@),
        ", "@,
    ) + ") "@ + match r.output {
        Some(t) => "-> "@ + t@,
        None => Seq::empty(),
    } + ";"@
}

/// The serving method of an RPC as the trait declares it: the RPC's
/// attributes, `<method>_grpc`, `&mut self`, the call context, the request
/// tuple and the response sink.
pub open spec fn declared_serving_method(r: RpcMethod) -> Seq<char> {
    join(views(r.attrs@), " "@) + (" fn "@ + (fragment(r.ident@) + "_grpc"@) + "(&mut self"@ + (
    ", ctx: ::bincode_grpc::grpcio::RpcContext, "@ + "req"@ + ": "@ + request_tuple(
        param_types(r.args@),
    ) + ", sink: ::bincode_grpc::grpcio::UnarySink<"@ + response_of(r.output) + ">"@) + ")"@)
        + ";"@
}

proof fn lemma_trait_item(r: RpcMethod)
    ensures
        trait_item(r) == declared_method(r) + " "@ + declared_serving_method(r) + " "@,
{
    lemma_param_types(r);
    assert(crate::rpc::arg_decls(r.args@) =~= Seq::new(
        r.args@.len(),
        |k: int| r.args@[k].pat@ + ": "@ + r.args@[k].ty@,
    ));
    assert(original_method_text(r) == declared_method(r));
    assert(grpc_method_text(r) == declared_serving_method(r));
}

/// The rewritten trait holds, for every RPC, its declaration as the user
/// wrote it, followed at once by the declaration of its serving method.
pub proof fn law_trait_declares_every_rpc(s: Service, i: int)
    requires
        0 <= i < s.rpcs@.len(),
    ensures
        occurs_in(
            declared_method(s.rpcs@[i]) + " "@ + declared_serving_method(s.rpcs@[i]) + " "@,
            trait_service_text(s),
        ),
{
    let r = s.rpcs@[i];
    lemma_trait_item(r);
    let pieces = s.rpcs@.map_values(|x: RpcMethod| trait_item(x));
    assert(pieces[i] == trait_item(r));
    lemma_occurs_concat(pieces, i);
    let pre = crate::rpc::attrs_text(views(s.attrs@)) + " "@ + s.vis@ + " trait "@ + s.ident@
        + " { "@;
    assert(trait_service_text(s) == pre + concat(pieces) + "}"@);
    assert(occurs_in(pieces[i], trait_service_text(s))) by {
        lemma_occurs_right(pieces[i], pre, concat(pieces));
        lemma_occurs_left(pieces[i], pre + concat(pieces), "}"@);
    }
}

/// The client type of a service: `<Service>Client`.
pub open spec fn client_type(service: Seq<char>) -> Seq<char> {
    fragment(service) + "Client"@
}

/// What `#[service]` writes holds the service's constants, its trait, the
/// function that builds it, and the client: a cloneable struct
/// `<Service>Client` with the service's visibility that wraps the
/// underlying client and dereferences to it, and whose constructor takes a
/// channel; the building function is `create_<service>`, generic over
/// implementations of the trait that can be sent and cloned.
pub proof fn law_expansion_parts(s: Service)
    ensures
        occurs_in(method_declarations_text(s), crate::service::expansion_text(s)),
        occurs_in(trait_service_text(s), crate::service::expansion_text(s)),
        occurs_in(create_service_text(s), crate::service::expansion_text(s)),
        occurs_in(client_impl_text(s), crate::service::expansion_text(s)),
        occurs_in(
            "#[derive(Clone)] "@ + s.vis@ + " struct "@ + client_type(s.ident@)
                + " { client: ::bincode_grpc::tonic::Client, }"@,
            crate::service::expansion_text(s),
        ),
        occurs_in(
            "impl std::ops::Deref for "@ + client_type(s.ident@)
                + " { type Target = ::bincode_grpc::tonic::Client; fn deref(&self) -> &Self::Target { &self.client } }"@,
            crate::service::expansion_text(s),
        ),
        occurs_in(
            "impl "@ + client_type(s.ident@) + " { "@ + s.vis@
                + " fn new(channel: ::bincode_grpc::grpcio::Channel) -> Self { Self { client: ::bincode_grpc::grpcio::Client::new(channel) } } "@,
            crate::service::expansion_text(s),
        ),
        occurs_in(
            s.vis@ + " fn "@ + ("create_"@ + crate::names::snake_case(s.ident@)) + "<S: "@ + s.ident@
                + " + Send + Clone + 'static>(s: S) -> ::bincode_grpc::grpcio::Service { let mut builder = ::bincode_grpc::grpcio::ServiceBuilder::new(); "@,
            crate::service::expansion_text(s),
        ),
{
    broadcast use {lemma_occurs_left, lemma_occurs_right};

    lemma_occurs_self(method_declarations_text(s));
    lemma_occurs_self(trait_service_text(s));
    lemma_occurs_self(create_service_text(s));
    lemma_occurs_self(client_impl_text(s));
    lemma_occurs_self(crate::service::client_struct_text(s));
    lemma_occurs_self(crate::service::client_deref_text(s));
    let head = "impl "@ + client_type(s.ident@) + " { "@ + s.vis@
        + " fn new(channel: ::bincode_grpc::grpcio::Channel) -> Self { Self { client: ::bincode_grpc::grpcio::Client::new(channel) } } "@;
    lemma_occurs_self(head);
    let create = s.vis@ + " fn "@ + ("create_"@ + crate::names::snake_case(s.ident@)) + "<S: "@
        + s.ident@
        + " + Send + Clone + 'static>(s: S) -> ::bincode_grpc::grpcio::Service { let mut builder = ::bincode_grpc::grpcio::ServiceBuilder::new(); "@;
    lemma_occurs_self(create);
}

/// The text of each item of an impl, each followed by a space.
pub open spec fn items_in_order(items: Seq<ImplItem>) -> Seq<char> {
    concat(
        Seq::new(
            items.len(),
            |k: int|
                match items[k] {
                    ImplItem::Fn(f) => f.text@,
                    ImplItem::Other(t) => t@,
                } + " "@,
        ),
    )
}

/// `#[server]` writes one impl with the original header: right after its
/// opening brace and inner attributes come all the original items, in
/// their order, unchanged; the serving methods follow them.
pub proof fn law_server_keeps_items_first(block: ImplBlock)
    ensures
        occurs_in(
            block.header@ + " { "@ + join(views(block.inner_attrs@), " "@) + " "@ + items_in_order(
                block.items@,
            ),
            server_text(block),
        ),
{
    let items = block.items@;
    assert(items.map_values(|it: ImplItem| crate::server::item_text(it) + " "@) =~= Seq::new(
        items.len(),
        |k: int|
            match items[k] {
                ImplItem::Fn(f) => f.text@,
                ImplItem::Other(t) => t@,
            } + " "@,
    ));
    let needle = block.header@ + " { "@ + join(views(block.inner_attrs@), " "@) + " "@
        + items_in_order(items);
    assert(server_text(block) == needle + concat(crate::server::server_methods(items)) + "}\n"@);
    lemma_occurs_self(needle);
    lemma_occurs_left(needle, needle, concat(crate::server::server_methods(items)));
    lemma_occurs_left(needle, needle + concat(crate::server::server_methods(items)), "}\n"@);
}

} // verus!
