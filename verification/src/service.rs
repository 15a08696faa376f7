//! The code that `#[service]` generates for a service trait: the method
//! constants, the trait with its serving methods, the function that builds
//! the service, and the client.
use vstd::prelude::*;
use vstd::string::*;

use crate::model::{RpcMethod, Service};
use crate::names::{create_fn_ident, create_fn_name, declaration_name, suffixed, suffixed_ident};
use crate::rpc::{
    attrs_text, client_method_async_opt_text, client_method_async_text, client_method_opt_text,
    client_method_text, grpc_method_name, grpc_method_text, method_declaration_text,
    original_method_text,
};
use crate::text::{concat, join_strings, lemma_concat_push, views};

verus! {

/// `Greeter` to `GreeterClient`: the client type.
pub open spec fn client_name(service: Seq<char>) -> Seq<char> {
    suffixed(service, "Client"@)
}

/// The client type, which holds the underlying client.
pub open spec fn client_struct_text(s: Service) -> Seq<char> {
    "#[derive(Clone)] "@ + s.vis@ + " struct "@ + client_name(s.ident@)
        + " { client: ::bincode_grpc::tonic::Client, }"@
}

/// The client type dereferences to the underlying client.
pub open spec fn client_deref_text(s: Service) -> Seq<char> {
    "impl std::ops::Deref for "@ + client_name(s.ident@)
        + " { type Target = ::bincode_grpc::tonic::Client; fn deref(&self) -> &Self::Target { &self.client } }"@
}

/// The four client methods of one RPC, each with the service's visibility:
/// blocking, blocking with options, asynchronous, asynchronous with options.
pub open spec fn rpc_client_methods(s: Service, r: RpcMethod) -> Seq<char> {
    s.vis@ + " "@ + client_method_text(r) + " "@ + s.vis@ + " "@ + client_method_opt_text(r, s.ident@)
        + " "@ + s.vis@ + " "@ + client_method_async_text(r) + " "@ + s.vis@ + " "@
        + client_method_async_opt_text(r, s.ident@) + " "@
}

/// The constructor of the client and the client methods of every RPC.
pub open spec fn client_impl_text(s: Service) -> Seq<char> {
    "impl "@ + client_name(s.ident@) + " { "@ + s.vis@
        + " fn new(channel: ::bincode_grpc::grpcio::Channel) -> Self { Self { client: ::bincode_grpc::grpcio::Client::new(channel) } } "@
        + concat(s.rpcs@.map_values(|r: RpcMethod| rpc_client_methods(s, r))) + "}"@
}

/// One method constant, with the service's visibility.
pub open spec fn visible_declaration(s: Service, r: RpcMethod) -> Seq<char> {
    s.vis@ + " "@ + method_declaration_text(r, s.ident@) + " "@
}

/// The constants of every RPC, in order.
pub open spec fn method_declarations_text(s: Service) -> Seq<char> {
    concat(s.rpcs@.map_values(|r: RpcMethod| visible_declaration(s, r)))
}

/// What the trait holds for one RPC: the method as the user declared it,
/// then the method that serves it.
pub open spec fn trait_item(r: RpcMethod) -> Seq<char> {
    original_method_text(r) + " "@ + grpc_method_text(r) + " "@
}

/// The service trait as rewritten: its attributes, visibility and name, and
/// for every RPC in order its declaration followed by the method that serves it.
pub open spec fn trait_service_text(s: Service) -> Seq<char> {
    attrs_text(views(s.attrs@)) + " "@ + s.vis@ + " trait "@ + s.ident@ + " { "@ + concat(
        s.rpcs@.map_values(|r: RpcMethod| trait_item(r)),
    ) + "}"@
}

/// The registration of one RPC's handler: a clone of the service answers
/// calls of the RPC's constant through its serving method.
pub open spec fn registration_text(s: Service, r: RpcMethod) -> Seq<char> {
    "let mut instance = s.clone(); builder = builder.add_unary_handler(&"@ + declaration_name(
        s.ident@,
        r.ident@,
    ) + ", move |ctx, req, resp| { instance."@ + grpc_method_name(r.ident@)
        + "(ctx, req, resp) }); "@
}

/// The function that builds the service from an implementation of the trait.
pub open spec fn create_service_text(s: Service) -> Seq<char> {
    s.vis@ + " fn "@ + create_fn_name(s.ident@) + "<S: "@ + s.ident@
        + " + Send + Clone + 'static>(s: S) -> ::bincode_grpc::grpcio::Service { let mut builder = ::bincode_grpc::grpcio::ServiceBuilder::new(); "@
        + concat(s.rpcs@.map_values(|r: RpcMethod| registration_text(s, r))) + "builder.build() }"@
}

/// Everything that `#[service]` puts in place of the trait, in order: the
/// constants, the trait, the building function, the client type, its
/// dereference and its methods.
pub open spec fn expansion_text(s: Service) -> Seq<char> {
    method_declarations_text(s) + "\n"@ + trait_service_text(s) + "\n"@ + create_service_text(s)
        + "\n"@ + client_struct_text(s) + "\n"@ + client_deref_text(s) + "\n"@ + client_impl_text(
        s,
    ) + "\n"@
}

impl Service {
    /// `Greeter` to `create_greeter`.
    pub fn service_create_fn_ident(&self) -> (res: String)
        ensures
            res@ == create_fn_name(self.ident@),
    {
        create_fn_ident(self.ident.as_str())
    }

    /// `Greeter` to `GreeterClient`.
    pub fn client_ident(&self) -> (res: String)
        ensures
            res@ == client_name(self.ident@),
    {
        suffixed_ident(self.ident.as_str(), "Client")
    }

    /// The client type.
    pub fn client_struct(&self) -> (res: String)
        ensures
            res@ == client_struct_text(*self),
    {
        let ident = self.client_ident();
        let mut res = String::from_str("#[derive(Clone)] ");
        res.append(self.vis.as_str());
        res.append(" struct ");
        res.append(ident.as_str());
        res.append(" { client: ::bincode_grpc::tonic::Client, }");
        res
    }

    /// The dereference of the client type to the underlying client.
    pub fn client_deref(&self) -> (res: String)
        ensures
            res@ == client_deref_text(*self),
    {
        let ident = self.client_ident();
        let mut res = String::from_str("impl std::ops::Deref for ");
        res.append(ident.as_str());
        res.append(
            " { type Target = ::bincode_grpc::tonic::Client; fn deref(&self) -> &Self::Target { &self.client } }",
        );
        res
    }

    /// The constructor of the client and its methods.
    pub fn client_impl(&self) -> (res: String)
        ensures
            res@ == client_impl_text(*self),
    {
        let ghost all = self.rpcs@.map_values(|r: RpcMethod| rpc_client_methods(*self, r));
        let mut methods = String::new();
        let mut i: usize = 0;
        while i < self.rpcs.len()
            invariant
                i <= self.rpcs@.len(),
                all == self.rpcs@.map_values(|r: RpcMethod| rpc_client_methods(*self, r)),
                methods@ == concat(all.take(i as int)),
            decreases self.rpcs@.len() - i,
        {
            let rpc = &self.rpcs[i];
            let mut piece = self.vis.clone();
            piece.append(" ");
            let m = rpc.client_method();
            piece.append(m.as_str());
            piece.append(" ");
            piece.append(self.vis.as_str());
            piece.append(" ");
            let m = rpc.client_method_opt(self.ident.as_str());
            piece.append(m.as_str());
            piece.append(" ");
            piece.append(self.vis.as_str());
            piece.append(" ");
            let m = rpc.client_method_async();
            piece.append(m.as_str());
            piece.append(" ");
            piece.append(self.vis.as_str());
            piece.append(" ");
            let m = rpc.client_method_async_opt(self.ident.as_str());
            piece.append(m.as_str());
            piece.append(" ");
            proof {
                assert(all.take(i + 1) =~= all.take(i as int).push(piece@));
                lemma_concat_push(all.take(i as int), piece@);
            }
            methods.append(piece.as_str());
            i = i + 1;
        }
        assert(all.take(self.rpcs@.len() as int) =~= all);
        let ident = self.client_ident();
        let mut res = String::from_str("impl ");
        res.append(ident.as_str());
        res.append(" { ");
        res.append(self.vis.as_str());
        res.append(
            " fn new(channel: ::bincode_grpc::grpcio::Channel) -> Self { Self { client: ::bincode_grpc::grpcio::Client::new(channel) } } ",
        );
        res.append(methods.as_str());
        res.append("}");
        res
    }

    /// The constants of every RPC.
    pub fn method_declarations(&self) -> (res: String)
        ensures
            res@ == method_declarations_text(*self),
    {
        let ghost all = self.rpcs@.map_values(|r: RpcMethod| visible_declaration(*self, r));
        let mut res = String::new();
        let mut i: usize = 0;
        while i < self.rpcs.len()
            invariant
                i <= self.rpcs@.len(),
                all == self.rpcs@.map_values(|r: RpcMethod| visible_declaration(*self, r)),
                res@ == concat(all.take(i as int)),
            decreases self.rpcs@.len() - i,
        {
            let mut piece = self.vis.clone();
            piece.append(" ");
            let d = self.rpcs[i].method_declaration(self.ident.as_str());
            piece.append(d.as_str());
            piece.append(" ");
            proof {
                assert(all.take(i + 1) =~= all.take(i as int).push(piece@));
                lemma_concat_push(all.take(i as int), piece@);
            }
            res.append(piece.as_str());
            i = i + 1;
        }
        assert(all.take(self.rpcs@.len() as int) =~= all);
        res
    }

    /// The service trait with, for every RPC, its declaration and its serving method.
    pub fn trait_service(&self) -> (res: String)
        ensures
            res@ == trait_service_text(*self),
    {
        let ghost all = self.rpcs@.map_values(|r: RpcMethod| trait_item(r));
        let mut items = String::new();
        let mut i: usize = 0;
        while i < self.rpcs.len()
            invariant
                i <= self.rpcs@.len(),
                all == self.rpcs@.map_values(|r: RpcMethod| trait_item(r)),
                items@ == concat(all.take(i as int)),
            decreases self.rpcs@.len() - i,
        {
            let mut piece = self.rpcs[i].original_method();
            piece.append(" ");
            let serving = self.rpcs[i].grpc_method();
            piece.append(serving.as_str());
            piece.append(" ");
            proof {
                assert(all.take(i + 1) =~= all.take(i as int).push(piece@));
                lemma_concat_push(all.take(i as int), piece@);
            }
            items.append(piece.as_str());
            i = i + 1;
        }
        assert(all.take(self.rpcs@.len() as int) =~= all);
        let mut res = join_strings(&self.attrs, " ");
        res.append(" ");
        res.append(self.vis.as_str());
        res.append(" trait ");
        res.append(self.ident.as_str());
        res.append(" { ");
        res.append(items.as_str());
        res.append("}");
        res
    }

    /// The function that builds the service.
    pub fn create_service(&self) -> (res: String)
        ensures
            res@ == create_service_text(*self),
    {
        let ghost all = self.rpcs@.map_values(|r: RpcMethod| registration_text(*self, r));
        let mut registrations = String::new();
        let mut i: usize = 0;
        while i < self.rpcs.len()
            invariant
                i <= self.rpcs@.len(),
                all == self.rpcs@.map_values(|r: RpcMethod| registration_text(*self, r)),
                registrations@ == concat(all.take(i as int)),
            decreases self.rpcs@.len() - i,
        {
            let rpc = &self.rpcs[i];
            let declaration_ident = rpc.method_declaration_ident(self.ident.as_str());
            let grpc_ident = rpc.grpc_method_ident();
            let mut piece = String::from_str(
                "let mut instance = s.clone(); builder = builder.add_unary_handler(&",
            );
            piece.append(declaration_ident.as_str());
            piece.append(", move |ctx, req, resp| { instance.");
            piece.append(grpc_ident.as_str());
            piece.append("(ctx, req, resp) }); ");
            proof {
                assert(all.take(i + 1) =~= all.take(i as int).push(piece@));
                lemma_concat_push(all.take(i as int), piece@);
            }
            registrations.append(piece.as_str());
            i = i + 1;
        }
        assert(all.take(self.rpcs@.len() as int) =~= all);
        let fn_ident = self.service_create_fn_ident();
        let mut res = self.vis.clone();
        res.append(" fn ");
        res.append(fn_ident.as_str());
        res.append("<S: ");
        res.append(self.ident.as_str());
        res.append(
            " + Send + Clone + 'static>(s: S) -> ::bincode_grpc::grpcio::Service { let mut builder = ::bincode_grpc::grpcio::ServiceBuilder::new(); ",
        );
        res.append(registrations.as_str());
        res.append("builder.build() }");
        res
    }

    /// Appends to `tokens` everything that `#[service]` puts in place of the trait.
    pub fn to_tokens(&self, tokens: &mut String)
        ensures
            final(tokens)@ == old(tokens)@ + expansion_text(*self),
    {
        let ghost start = tokens@;
        let a = self.method_declarations();
        let b = self.trait_service();
        let c = self.create_service();
        let d = self.client_struct();
        let e = self.client_deref();
        let f = self.client_impl();
        let mut all = a;
        all.append("\n");
        all.append(b.as_str());
        all.append("\n");
        all.append(c.as_str());
        all.append("\n");
        all.append(d.as_str());
        all.append("\n");
        all.append(e.as_str());
        all.append("\n");
        all.append(f.as_str());
        all.append("\n");
        tokens.append(all.as_str());
    }
}

/// What `#[service]` puts in place of a service trait.
pub fn service(item: &Service) -> (res: String)
    ensures
        res@ == expansion_text(*item),
{
    let mut tokens = String::new();
    item.to_tokens(&mut tokens);
    tokens
}

} // verus!
