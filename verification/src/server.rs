//! The code that `#[server]` generates for an implementation of a service
//! trait: the impl keeps the user's items and gets, for each of its methods,
//! the method that serves it as an RPC.
use vstd::prelude::*;
use vstd::string::*;

use crate::model::opt_view;
use crate::rpc::{
    grpc_method_name, req_type_of, req_type_text, resp_type_of, resp_type_text, serving_signature,
    serving_signature_of,
};
use crate::names::suffixed_ident;
use crate::text::{concat, join, join_strings, lemma_concat_push, views};

verus! {

/// One parameter of a method in the impl.
pub enum ImplInput {
    /// `self` in one of its forms.
    Receiver(String),
    /// `pat: Type`.
    Typed { pat: String, ty: String },
}

/// A method of the impl: its whole text, and the parts the macro reads.
pub struct ImplFn {
    pub text: String,
    pub vis: String,
    pub ident: String,
    pub inputs: Vec<ImplInput>,
    pub output: Option<String>,
}

/// An item of the impl.
pub enum ImplItem {
    Fn(ImplFn),
    /// Any other item, by its text.
    Other(String),
}

/// An impl block: `header { inner_attrs items }`, where the header holds the
/// outer attributes, `impl`, the generics, the trait, the self type and the
/// where clause.
pub struct ImplBlock {
    pub header: String,
    pub inner_attrs: Vec<String>,
    pub items: Vec<ImplItem>,
}

/// The patterns of the typed parameters, in order.
pub open spec fn typed_pats(inputs: Seq<ImplInput>) -> Seq<Seq<char>>
    decreases inputs.len(),
{
    if inputs.len() == 0 {
        Seq::empty()
    } else {
        match inputs.last() {
            ImplInput::Typed { pat, .. } => typed_pats(inputs.drop_last()).push(pat@),
            ImplInput::Receiver(_) => typed_pats(inputs.drop_last()),
        }
    }
}

/// The types of the typed parameters, in order.
pub open spec fn typed_types(inputs: Seq<ImplInput>) -> Seq<Seq<char>>
    decreases inputs.len(),
{
    if inputs.len() == 0 {
        Seq::empty()
    } else {
        match inputs.last() {
            ImplInput::Typed { ty, .. } => typed_types(inputs.drop_last()).push(ty@),
            ImplInput::Receiver(_) => typed_types(inputs.drop_last()),
        }
    }
}

/// A list of patterns, each followed by a comma.
pub open spec fn pattern_list(pats: Seq<Seq<char>>) -> Seq<char> {
    concat(pats.map_values(|p: Seq<char>| p + ", "@))
}

/// The reply that every serving method sends, and the spawning of it.
pub open spec fn reply_text() -> Seq<char> {
    "let f = sink.success(resp).map_err(move |e| ::bincode_grpc::tracing::error!(\"failed to reply {:?}\", e)).map(|_| ()); ctx.spawn(f) }"@
}

/// The name of the request parameter of the serving method: `_req` when
/// the method takes no parameters, so that it stays unused.
pub open spec fn request_param(f: ImplFn) -> Seq<char> {
    if typed_pats(f.inputs@).len() > 0 {
        "req"@
    } else {
        "_req"@
    }
}

/// The body of the serving method: it unpacks the request tuple into the
/// parameters, calls `f` with them and sends what it returns.
pub open spec fn serving_body(f: ImplFn) -> Seq<char> {
    let pats = typed_pats(f.inputs@);
    if pats.len() > 0 {
        "let ("@ + pattern_list(pats) + ") = req; let mut resp = self."@ + f.ident@ + "("@
            + pattern_list(pats) + "); "@ + reply_text()
    } else {
        "let mut resp = self."@ + f.ident@ + "(); "@ + reply_text()
    }
}

/// The method that serves `f` as an RPC.
pub open spec fn server_method_text(f: ImplFn) -> Seq<char> {
    f.vis@ + serving_signature(
        grpc_method_name(f.ident@),
        request_param(f),
        req_type_text(typed_types(f.inputs@)),
        resp_type_text(opt_view(f.output)),
    ) + " { "@ + serving_body(f)
}

/// The text of an item.
pub open spec fn item_text(item: ImplItem) -> Seq<char> {
    match item {
        ImplItem::Fn(f) => f.text@,
        ImplItem::Other(t) => t@,
    }
}

/// The serving method of every method of the impl, in order; other items
/// get none.
pub open spec fn server_methods(items: Seq<ImplItem>) -> Seq<Seq<char>>
    decreases items.len(),
{
    if items.len() == 0 {
        Seq::empty()
    } else {
        match items.last() {
            ImplItem::Fn(f) => server_methods(items.drop_last()).push(server_method_text(f) + " "@),
            ImplItem::Other(_) => server_methods(items.drop_last()),
        }
    }
}

/// What `#[server]` puts in place of the impl: the same impl, holding its
/// inner attributes, every original item in order, and then the serving
/// method of every method among them.
pub open spec fn server_text(block: ImplBlock) -> Seq<char> {
    block.header@ + " { "@ + join(views(block.inner_attrs@), " "@) + " "@ + concat(
        block.items@.map_values(|it: ImplItem| item_text(it) + " "@),
    ) + concat(server_methods(block.items@)) + "}\n"@
}

/// The patterns and the types of the typed parameters.
fn typed_parts(inputs: &Vec<ImplInput>) -> (res: (Vec<String>, Vec<String>))
    ensures
        views(res.0@) == typed_pats(inputs@),
        views(res.1@) == typed_types(inputs@),
{
    let mut pats: Vec<String> = Vec::new();
    let mut types: Vec<String> = Vec::new();
    let mut i: usize = 0;
    while i < inputs.len()
        invariant
            i <= inputs@.len(),
            views(pats@) == typed_pats(inputs@.take(i as int)),
            views(types@) == typed_types(inputs@.take(i as int)),
        decreases inputs@.len() - i,
    {
        assert(inputs@.take(i + 1).drop_last() =~= inputs@.take(i as int));
        match &inputs[i] {
            ImplInput::Typed { pat, ty } => {
                let ghost p0 = pats@;
                let ghost t0 = types@;
                pats.push(pat.clone());
                types.push(ty.clone());
                assert(views(pats@) =~= views(p0).push(pat@));
                assert(views(types@) =~= views(t0).push(ty@));
            },
            ImplInput::Receiver(_) => {},
        }
        i = i + 1;
    }
    assert(inputs@.take(inputs@.len() as int) =~= inputs@);
    (pats, types)
}

/// Each pattern followed by a comma.
fn pattern_list_of(pats: &Vec<String>) -> (res: String)
    ensures
        res@ == pattern_list(views(pats@)),
{
    let ghost all = views(pats@).map_values(|p: Seq<char>| p + ", "@);
    let mut res = String::new();
    let mut i: usize = 0;
    while i < pats.len()
        invariant
            i <= pats@.len(),
            all == views(pats@).map_values(|p: Seq<char>| p + ", "@),
            res@ == concat(all.take(i as int)),
        decreases pats@.len() - i,
    {
        let mut piece = pats[i].clone();
        piece.append(", ");
        proof {
            assert(all.take(i + 1) =~= all.take(i as int).push(piece@));
            lemma_concat_push(all.take(i as int), piece@);
        }
        res.append(piece.as_str());
        i = i + 1;
    }
    assert(all.take(pats@.len() as int) =~= all);
    res
}

impl ImplFn {
    /// The method that serves this one as an RPC.
    pub fn grpc_method(&self) -> (res: String)
        ensures
            res@ == server_method_text(*self),
    {
        let grpc_method_ident = suffixed_ident(self.ident.as_str(), "_grpc");
        let (pats, types) = typed_parts(&self.inputs);
        let req_type = req_type_of(&types);
        let resp_type = resp_type_of(&self.output);
        let mut body;
        let signature;
        if pats.len() > 0 {
            let list = pattern_list_of(&pats);
            signature = serving_signature_of(&grpc_method_ident, "req", &req_type, &resp_type);
            body = String::from_str("let (");
            body.append(list.as_str());
            body.append(") = req; let mut resp = self.");
            body.append(self.ident.as_str());
            body.append("(");
            body.append(list.as_str());
            body.append("); ");
        } else {
            signature = serving_signature_of(&grpc_method_ident, "_req", &req_type, &resp_type);
            body = String::from_str("let mut resp = self.");
            body.append(self.ident.as_str());
            body.append("(); ");
        }
        body.append(
            "let f = sink.success(resp).map_err(move |e| ::bincode_grpc::tracing::error!(\"failed to reply {:?}\", e)).map(|_| ()); ctx.spawn(f) }",
        );
        let mut res = self.vis.clone();
        res.append(signature.as_str());
        res.append(" { ");
        res.append(body.as_str());
        res
    }
}

/// What `#[server]` puts in place of an impl of a service trait.
pub fn server(block: &ImplBlock) -> (res: String)
    ensures
        res@ == server_text(*block),
{
    let items = &block.items;
    let ghost originals = items@.map_values(|it: ImplItem| item_text(it) + " "@);
    let mut original = String::new();
    let mut serving = String::new();
    let mut i: usize = 0;
    while i < items.len()
        invariant
            i <= items@.len(),
            items@ == block.items@,
            originals == items@.map_values(|it: ImplItem| item_text(it) + " "@),
            original@ == concat(originals.take(i as int)),
            serving@ == concat(server_methods(items@.take(i as int))),
        decreases items@.len() - i,
    {
        assert(items@.take(i + 1).drop_last() =~= items@.take(i as int));
        let mut piece = match &items[i] {
            ImplItem::Fn(f) => {
                let mut m = f.grpc_method();
                m.append(" ");
                proof {
                    lemma_concat_push(server_methods(items@.take(i as int)), m@);
                }
                serving.append(m.as_str());
                f.text.clone()
            },
            ImplItem::Other(t) => t.clone(),
        };
        piece.append(" ");
        proof {
            assert(originals.take(i + 1) =~= originals.take(i as int).push(piece@));
            lemma_concat_push(originals.take(i as int), piece@);
        }
        original.append(piece.as_str());
        i = i + 1;
    }
    assert(originals.take(items@.len() as int) =~= originals);
    assert(items@.take(items@.len() as int) =~= items@);
    let mut res = block.header.clone();
    res.append(" { ");
    let inner = join_strings(&block.inner_attrs, " ");
    res.append(inner.as_str());
    res.append(" ");
    res.append(original.as_str());
    res.append(serving.as_str());
    res.append("}\n");
    res
}

} // verus!
