//! The code that `#[service]` generates for one RPC method.
use vstd::prelude::*;
use vstd::string::*;

use crate::model::{opt_view, Arg, RpcMethod};
use crate::names::{declaration_ident, declaration_name, suffixed, suffixed_ident};
use crate::text::{join, join_strings, views};

verus! {

/// The type of each parameter.
pub open spec fn arg_types(args: Seq<Arg>) -> Seq<Seq<char>> {
    args.map_values(|a: Arg| a.ty@)
}

/// Each parameter as declared: `pat: Type`.
pub open spec fn arg_decls(args: Seq<Arg>) -> Seq<Seq<char>> {
    args.map_values(|a: Arg| a.pat@ + ": "@ + a.ty@)
}

/// The request type: the tuple of the parameter types, `(A, B,)`, or `()`
/// when there are none.
pub open spec fn req_type_text(types: Seq<Seq<char>>) -> Seq<char> {
    if types.len() > 0 {
        "("@ + join(types, ", "@) + ",)"@
    } else {
        "()"@
    }
}

/// The response type: the declared result type, or `()`.
pub open spec fn resp_type_text(output: Option<Seq<char>>) -> Seq<char> {
    match output {
        Some(t) => t,
        None => "()"@,
    }
}

/// The result part of a signature: `-> Type`, or nothing.
pub open spec fn output_text(output: Option<Seq<char>>) -> Seq<char> {
    match output {
        Some(t) => "-> "@ + t,
        None => Seq::empty(),
    }
}

/// Attributes as written before an item, one after another.
pub open spec fn attrs_text(attrs: Seq<Seq<char>>) -> Seq<char> {
    join(attrs, " "@)
}

/// The request type of an RPC method.
pub open spec fn rpc_req_type(r: RpcMethod) -> Seq<char> {
    req_type_text(arg_types(r.args@))
}

/// The response type of an RPC method.
pub open spec fn rpc_resp_type(r: RpcMethod) -> Seq<char> {
    resp_type_text(opt_view(r.output))
}

/// The method as the user declared it.
pub open spec fn original_method_text(r: RpcMethod) -> Seq<char> {
    attrs_text(views(r.attrs@)) + " fn "@ + r.ident@ + "("@ + r.receiver@ + ", "@ + join(
        arg_decls(r.args@),
        ", "@,
    ) + ") "@ + output_text(opt_view(r.output)) + ";"@
}

/// The blocking client method, which calls the one with options.
pub open spec fn client_method_text(r: RpcMethod) -> Seq<char> {
    "fn "@ + r.ident@ + "(&self, req: &"@ + rpc_req_type(r)
        + ") -> ::bincode_grpc::grpcio::Result<"@ + rpc_resp_type(r) + "> { self."@ + suffixed(
        r.ident@,
        "_opt"@,
    ) + "(req, ::bincode_grpc::grpcio::CallOption::default()) }"@
}

/// What the blocking client method with call options writes before the
/// constant it calls through.
pub open spec fn unary_call_head(r: RpcMethod) -> Seq<char> {
    "fn "@ + suffixed(r.ident@, "_opt"@) + "(&self, req: &"@ + rpc_req_type(r)
        + ", opt: ::bincode_grpc::grpcio::CallOption) -> ::bincode_grpc::grpcio::Result<"@
        + rpc_resp_type(r) + "> { self.client.unary_call(&"@
}

/// The blocking client method with call options, which makes the unary call.
pub open spec fn client_method_opt_text(r: RpcMethod, service: Seq<char>) -> Seq<char> {
    unary_call_head(r) + declaration_name(service, r.ident@) + ", req, opt) }"@
}

/// What the asynchronous client method with call options writes before
/// the constant it calls through.
pub open spec fn unary_call_async_head(r: RpcMethod) -> Seq<char> {
    "fn "@ + suffixed(r.ident@, "_async_opt"@) + "(&self, req: &"@ + rpc_req_type(r)
        + ", opt: ::bincode_grpc::grpcio::CallOption) -> ::bincode_grpc::grpcio::Result<::grpcio::ClientUnaryReceiver<"@
        + rpc_resp_type(r) + ">> { self.client.unary_call_async(&"@
}

/// The asynchronous client method with call options.
pub open spec fn client_method_async_opt_text(r: RpcMethod, service: Seq<char>) -> Seq<char> {
    unary_call_async_head(r) + declaration_name(service, r.ident@) + ", req, opt) }"@
}

/// The asynchronous client method, which calls the one with options.
pub open spec fn client_method_async_text(r: RpcMethod) -> Seq<char> {
    "fn "@ + suffixed(r.ident@, "_async"@) + "(&self, req: &"@ + rpc_req_type(r)
        + ") -> ::bincode_grpc::grpcio::Result<::grpcio::ClientUnaryReceiver<"@ + rpc_resp_type(r)
        + ">> { self."@ + suffixed(r.ident@, "_async_opt"@)
        + "(req, ::bincode_grpc::grpcio::CallOption::default()) }"@
}

/// The name of the method that serves the RPC: `say_hello` to `say_hello_grpc`.
pub open spec fn grpc_method_name(ident: Seq<char>) -> Seq<char> {
    suffixed(ident, "_grpc"@)
}

/// The parameters that follow the receiver in a serving method: the call
/// context, the request, named `param`, and the sink for the response.
pub open spec fn serving_params(param: Seq<char>, req: Seq<char>, resp: Seq<char>) -> Seq<char> {
    ", ctx: ::bincode_grpc::grpcio::RpcContext, "@ + param + ": "@ + req
        + ", sink: ::bincode_grpc::grpcio::UnarySink<"@ + resp + ">"@
}

/// The signature of a serving method named `name`: a `&mut self` receiver,
/// the call context, the request, named `param`, and the response sink.
pub open spec fn serving_signature(
    name: Seq<char>,
    param: Seq<char>,
    req: Seq<char>,
    resp: Seq<char>,
) -> Seq<char> {
    " fn "@ + name + "(&mut self"@ + serving_params(param, req, resp) + ")"@
}

/// The signature of the method that serves the RPC.
pub open spec fn rpc_serving_signature(r: RpcMethod) -> Seq<char> {
    serving_signature(grpc_method_name(r.ident@), "req"@, rpc_req_type(r), rpc_resp_type(r))
}

/// The trait method that serves the RPC: whatever the receiver of the
/// declared method, it takes `&mut self`, the call context, the request as a
/// tuple and the sink for the response.
pub open spec fn grpc_method_text(r: RpcMethod) -> Seq<char> {
    attrs_text(views(r.attrs@)) + rpc_serving_signature(r) + ";"@
}

/// The constant that describes the RPC: its kind, its name and how its
/// request and response are marshalled.
pub open spec fn method_declaration_text(r: RpcMethod, service: Seq<char>) -> Seq<char> {
    "const "@ + declaration_name(service, r.ident@) + ": ::bincode_grpc::grpcio::Method<"@
        + rpc_req_type(r) + ", "@ + rpc_resp_type(r)
        + "> = ::bincode_grpc::grpcio::Method { ty: ::bincode_grpc::grpcio::MethodType::Unary, name: stringify!("@
        + declaration_name(service, r.ident@)
        + "), req_mar: ::bincode_grpc::grpcio::Marshaller { ser: ::bincode_grpc::bi_codec::ser, de: ::bincode_grpc::bi_codec::de, }, resp_mar: ::bincode_grpc::grpcio::Marshaller { ser: ::bincode_grpc::bi_codec::ser, de: ::bincode_grpc::bi_codec::de, }, };"@
}

/// The type of each parameter.
fn arg_type_strings(args: &Vec<Arg>) -> (res: Vec<String>)
    ensures
        views(res@) == arg_types(args@),
{
    let mut res: Vec<String> = Vec::new();
    let mut i: usize = 0;
    while i < args.len()
        invariant
            i <= args@.len(),
            views(res@) == arg_types(args@).take(i as int),
        decreases args@.len() - i,
    {
        let ghost before = res@;
        res.push(args[i].ty.clone());
        assert(views(res@) =~= views(before).push(args@[i as int].ty@));
        assert(views(res@) =~= arg_types(args@).take(i + 1));
        i = i + 1;
    }
    assert(arg_types(args@).take(args@.len() as int) =~= arg_types(args@));
    res
}

/// Each parameter as declared.
fn arg_decl_strings(args: &Vec<Arg>) -> (res: Vec<String>)
    ensures
        views(res@) == arg_decls(args@),
{
    let mut res: Vec<String> = Vec::new();
    let mut i: usize = 0;
    while i < args.len()
        invariant
            i <= args@.len(),
            views(res@) == arg_decls(args@).take(i as int),
        decreases args@.len() - i,
    {
        let ghost before = res@;
        let mut decl = args[i].pat.clone();
        decl.append(": ");
        decl.append(args[i].ty.as_str());
        res.push(decl);
        assert(views(res@) =~= views(before).push(decl@));
        assert(views(res@) =~= arg_decls(args@).take(i + 1));
        i = i + 1;
    }
    assert(arg_decls(args@).take(args@.len() as int) =~= arg_decls(args@));
    res
}

/// The request type built from parameter types.
pub fn req_type_of(types: &Vec<String>) -> (res: String)
    ensures
        res@ == req_type_text(views(types@)),
{
    if types.len() > 0 {
        let mut res = String::from_str("(");
        let joined = join_strings(types, ", ");
        res.append(joined.as_str());
        res.append(",)");
        res
    } else {
        String::from_str("()")
    }
}

/// The parameters that follow the receiver in a serving method.
pub fn serving_params_of(param: &str, req: &String, resp: &String) -> (res: String)
    ensures
        res@ == serving_params(param@, req@, resp@),
{
    let mut res = String::from_str(", ctx: ::bincode_grpc::grpcio::RpcContext, ");
    res.append(param);
    res.append(": ");
    res.append(req.as_str());
    res.append(", sink: ::bincode_grpc::grpcio::UnarySink<");
    res.append(resp.as_str());
    res.append(">");
    res
}

/// The signature of a serving method.
pub fn serving_signature_of(name: &String, param: &str, req: &String, resp: &String) -> (res: String)
    ensures
        res@ == serving_signature(name@, param@, req@, resp@),
{
    let params = serving_params_of(param, req, resp);
    let mut res = String::from_str(" fn ");
    res.append(name.as_str());
    res.append("(&mut self");
    res.append(params.as_str());
    res.append(")");
    res
}

/// The response type built from a declared result type.
pub fn resp_type_of(output: &Option<String>) -> (res: String)
    ensures
        res@ == resp_type_text(opt_view(*output)),
{
    match output {
        Some(t) => t.clone(),
        None => String::from_str("()"),
    }
}

impl RpcMethod {
    /// `say_hello` in service `Greeter` to `METHOD_GREETER_SAY_HELLO`.
    pub fn method_declaration_ident(&self, service_name: &str) -> (res: String)
        ensures
            res@ == declaration_name(service_name@, self.ident@),
    {
        declaration_ident(service_name, self.ident.as_str())
    }

    /// `method` to `method_grpc`.
    pub fn grpc_method_ident(&self) -> (res: String)
        ensures
            res@ == grpc_method_name(self.ident@),
    {
        suffixed_ident(self.ident.as_str(), "_grpc")
    }

    /// The method as the user declared it.
    pub fn original_method(&self) -> (res: String)
        ensures
            res@ == original_method_text(*self),
    {
        let mut res = join_strings(&self.attrs, " ");
        res.append(" fn ");
        res.append(self.ident.as_str());
        res.append("(");
        res.append(self.receiver.as_str());
        res.append(", ");
        let decls = arg_decl_strings(&self.args);
        let joined = join_strings(&decls, ", ");
        res.append(joined.as_str());
        res.append(") ");
        match &self.output {
            Some(t) => {
                res.append("-> ");
                res.append(t.as_str());
            },
            None => {},
        }
        res.append(";");
        res
    }

    /// The request type: the tuple of the parameter types, or `()`.
    pub fn req_type(&self) -> (res: String)
        ensures
            res@ == rpc_req_type(*self),
    {
        let types = arg_type_strings(&self.args);
        req_type_of(&types)
    }

    /// The response type: the declared result type, or `()`.
    pub fn resp_type(&self) -> (res: String)
        ensures
            res@ == rpc_resp_type(*self),
    {
        resp_type_of(&self.output)
    }

    /// The blocking client method.
    pub fn client_method(&self) -> (res: String)
        ensures
            res@ == client_method_text(*self),
    {
        let req_type = self.req_type();
        let resp_type = self.resp_type();
        let opt_method_ident = suffixed_ident(self.ident.as_str(), "_opt");
        let mut res = String::from_str("fn ");
        res.append(self.ident.as_str());
        res.append("(&self, req: &");
        res.append(req_type.as_str());
        res.append(") -> ::bincode_grpc::grpcio::Result<");
        res.append(resp_type.as_str());
        res.append("> { self.");
        res.append(opt_method_ident.as_str());
        res.append("(req, ::bincode_grpc::grpcio::CallOption::default()) }");
        res
    }

    /// The blocking client method with call options.
    pub fn client_method_opt(&self, server_name: &str) -> (res: String)
        ensures
            res@ == client_method_opt_text(*self, server_name@),
    {
        let req_type = self.req_type();
        let resp_type = self.resp_type();
        let opt_method_ident = suffixed_ident(self.ident.as_str(), "_opt");
        let method_ident = self.method_declaration_ident(server_name);
        let mut res = String::from_str("fn ");
        res.append(opt_method_ident.as_str());
        res.append("(&self, req: &");
        res.append(req_type.as_str());
        res.append(", opt: ::bincode_grpc::grpcio::CallOption) -> ::bincode_grpc::grpcio::Result<");
        res.append(resp_type.as_str());
        res.append("> { self.client.unary_call(&");
        res.append(method_ident.as_str());
        res.append(", req, opt) }");
        res
    }

    /// The asynchronous client method with call options.
    pub fn client_method_async_opt(&self, server_name: &str) -> (res: String)
        ensures
            res@ == client_method_async_opt_text(*self, server_name@),
    {
        let req_type = self.req_type();
        let resp_type = self.resp_type();
        let async_opt_method_ident = suffixed_ident(self.ident.as_str(), "_async_opt");
        let method_ident = self.method_declaration_ident(server_name);
        let mut res = String::from_str("fn ");
        res.append(async_opt_method_ident.as_str());
        res.append("(&self, req: &");
        res.append(req_type.as_str());
        res.append(
            ", opt: ::bincode_grpc::grpcio::CallOption) -> ::bincode_grpc::grpcio::Result<::grpcio::ClientUnaryReceiver<",
        );
        res.append(resp_type.as_str());
        res.append(">> { self.client.unary_call_async(&");
        res.append(method_ident.as_str());
        res.append(", req, opt) }");
        res
    }

    /// The asynchronous client method.
    pub fn client_method_async(&self) -> (res: String)
        ensures
            res@ == client_method_async_text(*self),
    {
        let req_type = self.req_type();
        let resp_type = self.resp_type();
        let async_method_ident = suffixed_ident(self.ident.as_str(), "_async");
        let async_opt_method_ident = suffixed_ident(self.ident.as_str(), "_async_opt");
        let mut res = String::from_str("fn ");
        res.append(async_method_ident.as_str());
        res.append("(&self, req: &");
        res.append(req_type.as_str());
        res.append(") -> ::bincode_grpc::grpcio::Result<::grpcio::ClientUnaryReceiver<");
        res.append(resp_type.as_str());
        res.append(">> { self.");
        res.append(async_opt_method_ident.as_str());
        res.append("(req, ::bincode_grpc::grpcio::CallOption::default()) }");
        res
    }

    /// The trait method that serves the RPC.
    pub fn grpc_method(&self) -> (res: String)
        ensures
            res@ == grpc_method_text(*self),
    {
        let ident = self.grpc_method_ident();
        let req_type = self.req_type();
        let resp_type = self.resp_type();
        let signature = serving_signature_of(&ident, "req", &req_type, &resp_type);
        let mut res = join_strings(&self.attrs, " ");
        res.append(signature.as_str());
        res.append(";");
        res
    }

    /// The constant that describes the RPC.
    pub fn method_declaration(&self, service_name: &str) -> (res: String)
        ensures
            res@ == method_declaration_text(*self, service_name@),
    {
        let ident = self.method_declaration_ident(service_name);
        let req_type = self.req_type();
        let resp_type = self.resp_type();
        let mut res = String::from_str("const ");
        res.append(ident.as_str());
        res.append(": ::bincode_grpc::grpcio::Method<");
        res.append(req_type.as_str());
        res.append(", ");
        res.append(resp_type.as_str());
        res.append(
            "> = ::bincode_grpc::grpcio::Method { ty: ::bincode_grpc::grpcio::MethodType::Unary, name: stringify!(",
        );
        res.append(ident.as_str());
        res.append(
            "), req_mar: ::bincode_grpc::grpcio::Marshaller { ser: ::bincode_grpc::bi_codec::ser, de: ::bincode_grpc::bi_codec::de, }, resp_mar: ::bincode_grpc::grpcio::Marshaller { ser: ::bincode_grpc::bi_codec::ser, de: ::bincode_grpc::bi_codec::de, }, };",
        );
        res
    }
}

} // verus!
