//! What holds of the library as a whole.
use vstd::prelude::*;

use crate::model::{
    input_error, opt_view, receiver_of, scan_inputs, typed_args, FnInput, RpcInputError, RpcMethod,
    Service,
};
use crate::names::declaration_name;
use crate::rpc::{
    arg_types, attrs_text, client_method_async_opt_text, client_method_opt_text, grpc_method_name,
    grpc_method_text, method_declaration_text, rpc_req_type, rpc_resp_type, rpc_serving_signature,
    serving_signature, unary_call_async_head, unary_call_head,
};
use crate::server::{
    item_text, server_method_text, server_methods, server_text, serving_body,
    typed_pats, typed_types, ImplBlock, ImplFn, ImplInput, ImplItem,
};
use crate::service::{
    expansion_text, registration_text, rpc_client_methods, trait_item, visible_declaration,
};
use crate::text::{
    concat, lemma_concat_push, lemma_occurs_concat, lemma_occurs_left, lemma_occurs_right,
    lemma_occurs_self, occurs_in, views,
};

verus! {

/// How many receivers the inputs hold.
pub open spec fn receiver_count(inputs: Seq<FnInput>) -> nat
    decreases inputs.len(),
{
    if inputs.len() == 0 {
        0
    } else {
        receiver_count(inputs.drop_last()) + if inputs.last() is Receiver {
            1nat
        } else {
            0nat
        }
    }
}

/// Every typed parameter among the inputs is named by a plain identifier.
pub open spec fn params_named(inputs: Seq<FnInput>) -> bool {
    forall|k: int|
        0 <= k < inputs.len() ==> (#[trigger] inputs[k] matches FnInput::Typed {
            ident_pattern,
            ..
        } ==> ident_pattern)
}

proof fn lemma_scan_ok(inputs: Seq<FnInput>)
    ensures
        scan_inputs(inputs) is Ok <==> (receiver_count(inputs) <= 1 && params_named(inputs)),
        scan_inputs(inputs) is Ok ==> (scan_inputs(inputs)->Ok_0 is Some <==> receiver_count(inputs)
            == 1),
    decreases inputs.len(),
{
    if inputs.len() > 0 {
        let init = inputs.drop_last();
        lemma_scan_ok(init);
        if params_named(inputs) {
            assert forall|k: int| 0 <= k < init.len() implies (#[trigger] init[k] matches FnInput::Typed {
                ident_pattern,
                ..
            } ==> ident_pattern) by {
                assert(init[k] == inputs[k]);
            }
        }
        let last = inputs.len() - 1;
        assert(inputs[last] == inputs.last());
        if params_named(init) && (inputs.last() matches FnInput::Typed { ident_pattern, .. }
            ==> ident_pattern) {
            assert forall|k: int| 0 <= k < inputs.len() implies (#[trigger] inputs[k] matches FnInput::Typed {
                ident_pattern,
                ..
            } ==> ident_pattern) by {
                if k < last {
                    assert(init[k] == inputs[k]);
                }
            }
        }
    }
}

/// A trait method is accepted as an RPC method exactly when it has one
/// receiver, in any of its forms, and every parameter is named by a plain
/// identifier.
pub proof fn law_accepted_methods(inputs: Seq<FnInput>)
    ensures
        input_error(inputs) is None <==> (receiver_count(inputs) == 1 && params_named(inputs)),
{
    lemma_scan_ok(inputs);
}

/// Everything that `#[service]` generates for each RPC method stands in the
/// expansion: its constant, its declaration followed by its serving method
/// in the trait, the
/// registration of its handler, and its four client methods.
pub proof fn law_expansion_covers_every_rpc(s: Service, i: int)
    requires
        0 <= i < s.rpcs@.len(),
    ensures
        occurs_in(visible_declaration(s, s.rpcs@[i]), expansion_text(s)),
        occurs_in(trait_item(s.rpcs@[i]), expansion_text(s)),
        occurs_in(registration_text(s, s.rpcs@[i]), expansion_text(s)),
        occurs_in(rpc_client_methods(s, s.rpcs@[i]), expansion_text(s)),
{
    broadcast use {lemma_occurs_left, lemma_occurs_right};

    let r = s.rpcs@[i];
    let decls = s.rpcs@.map_values(|x: RpcMethod| visible_declaration(s, x));
    let items = s.rpcs@.map_values(|x: RpcMethod| trait_item(x));
    let regs = s.rpcs@.map_values(|x: RpcMethod| registration_text(s, x));
    let clients = s.rpcs@.map_values(|x: RpcMethod| rpc_client_methods(s, x));
    assert(decls[i] == visible_declaration(s, r));
    assert(items[i] == trait_item(r));
    assert(regs[i] == registration_text(s, r));
    assert(clients[i] == rpc_client_methods(s, r));
    lemma_occurs_concat(decls, i);
    lemma_occurs_concat(items, i);
    lemma_occurs_concat(regs, i);
    lemma_occurs_concat(clients, i);
}

/// The generated code refers to an RPC only by the names it declares for
/// it: the constant starts with the declaration of
/// `METHOD_<SERVICE>_<METHOD>`, the registration of the handler names that
/// constant and calls the serving method `<method>_grpc`, the trait
/// declares that serving method, and both client methods with call
/// options make their calls through that constant.
pub proof fn law_names_agree(s: Service, r: RpcMethod)
    ensures
        occurs_in(
            "const "@ + declaration_name(s.ident@, r.ident@),
            method_declaration_text(r, s.ident@),
        ),
        occurs_in(declaration_name(s.ident@, r.ident@), registration_text(s, r)),
        occurs_in(
            ", move |ctx, req, resp| { instance."@ + grpc_method_name(r.ident@),
            registration_text(s, r),
        ),
        occurs_in(" fn "@ + grpc_method_name(r.ident@) + "(&mut self"@, grpc_method_text(r)),
        occurs_in(declaration_name(s.ident@, r.ident@), client_method_opt_text(r, s.ident@)),
        occurs_in(
            declaration_name(s.ident@, r.ident@),
            client_method_async_opt_text(r, s.ident@),
        ),
{
    let decl = declaration_name(s.ident@, r.ident@);
    let name = grpc_method_name(r.ident@);
    assert(occurs_in("const "@ + decl, method_declaration_text(r, s.ident@))) by {
        broadcast use lemma_occurs_left;

        lemma_occurs_self("const "@ + decl);
    }
    let a = "let mut instance = s.clone(); builder = builder.add_unary_handler(&"@;
    let b = ", move |ctx, req, resp| { instance."@;
    let c = "(ctx, req, resp) }); "@;
    assert(registration_text(s, r) == a + decl + b + name + c);
    assert(occurs_in(decl, registration_text(s, r))) by {
        lemma_occurs_self(decl);
        lemma_occurs_right(decl, a, decl);
        lemma_occurs_left(decl, a + decl, b);
        lemma_occurs_left(decl, a + decl + b, name);
        lemma_occurs_left(decl, a + decl + b + name, c);
    }
    assert(occurs_in(b + name, registration_text(s, r))) by {
        assert(a + decl + b + name =~= (a + decl) + (b + name));
        lemma_occurs_self(b + name);
        lemma_occurs_right(b + name, a + decl, b + name);
        lemma_occurs_left(b + name, a + decl + b + name, c);
    }
    assert(occurs_in(" fn "@ + name + "(&mut self"@, grpc_method_text(r))) by {
        broadcast use lemma_occurs_left;

        let needle = " fn "@ + name + "(&mut self"@;
        lemma_occurs_self(needle);
        lemma_occurs_right(needle, attrs_text(views(r.attrs@)), rpc_serving_signature(r));
    }
    assert(occurs_in(decl, client_method_opt_text(r, s.ident@))) by {
        broadcast use lemma_occurs_left;

        lemma_occurs_self(decl);
        lemma_occurs_right(decl, unary_call_head(r), decl);
    }
    assert(occurs_in(decl, client_method_async_opt_text(r, s.ident@))) by {
        broadcast use lemma_occurs_left;

        lemma_occurs_self(decl);
        lemma_occurs_right(decl, unary_call_async_head(r), decl);
    }
}

/// For a method of the impl that implements an RPC method of the trait
/// (same name, same parameter types, same result type), the method that
/// `#[server]` adds has the very signature of the serving method that
/// `#[service]` declares in the trait; only when the method takes no
/// parameters is its request named `_req`, its type being `()` all the same.
pub proof fn law_server_implements_service(r: RpcMethod, f: ImplFn)
    requires
        f.ident@ == r.ident@,
        typed_types(f.inputs@) == arg_types(r.args@),
        opt_view(f.output) == opt_view(r.output),
    ensures
        r.args@.len() > 0 ==> server_method_text(f) == f.vis@ + rpc_serving_signature(r) + " { "@
            + serving_body(f),
        r.args@.len() == 0 ==> server_method_text(f) == f.vis@ + serving_signature(
            grpc_method_name(r.ident@),
            "_req"@,
            rpc_req_type(r),
            rpc_resp_type(r),
        ) + " { "@ + serving_body(f),
{
    law_request_unpacks_fully(f.inputs@);
    assert(arg_types(r.args@).len() == r.args@.len());
}

proof fn lemma_server_method_listed(items: Seq<ImplItem>, i: int)
    requires
        0 <= i < items.len(),
        items[i] is Fn,
    ensures
        occurs_in(server_method_text(items[i]->Fn_0) + " "@, concat(server_methods(items))),
    decreases items.len(),
{
    broadcast use {lemma_occurs_left, lemma_occurs_right};

    let init = items.drop_last();
    let rest = server_methods(init);
    if i == items.len() - 1 {
        let piece = server_method_text(items[i]->Fn_0) + " "@;
        lemma_concat_push(rest, piece);
        lemma_occurs_self(piece);
    } else {
        assert(init[i] == items[i]);
        lemma_server_method_listed(init, i);
        match items.last() {
            ImplItem::Fn(f) => {
                lemma_concat_push(rest, server_method_text(f) + " "@);
            },
            ImplItem::Other(_) => {},
        }
    }
}

/// `#[server]` keeps every item of the impl, and adds to the impl the
/// serving method of every method among them.
pub proof fn law_server_covers_every_item(block: ImplBlock, i: int)
    requires
        0 <= i < block.items@.len(),
    ensures
        occurs_in(item_text(block.items@[i]) + " "@, server_text(block)),
        block.items@[i] matches ImplItem::Fn(f) ==> occurs_in(
            server_method_text(f) + " "@,
            server_text(block),
        ),
{
    broadcast use {lemma_occurs_left, lemma_occurs_right};

    let originals = block.items@.map_values(|it: ImplItem| item_text(it) + " "@);
    assert(originals[i] == item_text(block.items@[i]) + " "@);
    lemma_occurs_concat(originals, i);
    if block.items@[i] is Fn {
        lemma_server_method_listed(block.items@, i);
    }
}

/// The serving method that `#[server]` adds unpacks the request tuple into
/// as many names as the tuple has elements: one pattern for each parameter
/// type.
pub proof fn law_request_unpacks_fully(inputs: Seq<ImplInput>)
    ensures
        typed_pats(inputs).len() == typed_types(inputs).len(),
    decreases inputs.len(),
{
    if inputs.len() > 0 {
        law_request_unpacks_fully(inputs.drop_last());
    }
}

proof fn lemma_scan_sticks(inputs: Seq<FnInput>, k: int)
    requires
        0 <= k <= inputs.len(),
        scan_inputs(inputs.take(k)) is Err,
    ensures
        scan_inputs(inputs) == scan_inputs(inputs.take(k)),
    decreases inputs.len() - k,
{
    if k == inputs.len() {
        assert(inputs.take(k) =~= inputs);
    } else {
        assert(inputs.take(k + 1).drop_last() =~= inputs.take(k));
        lemma_scan_sticks(inputs, k + 1);
    }
}

/// The first input that breaks a rule decides the error: when the inputs
/// before position `k` break none, a parameter at `k` named by a pattern
/// gives `PatternArgument`, and a receiver at `k` that follows another
/// gives `DuplicatedReceiver`. Without any such input, the only error left
/// is a missing receiver, exactly when there is none.
pub proof fn law_first_offending_input(inputs: Seq<FnInput>, k: int)
    requires
        0 <= k < inputs.len(),
        receiver_count(inputs.take(k)) <= 1,
        params_named(inputs.take(k)),
    ensures
        (inputs[k] matches FnInput::Typed { ident_pattern, .. } && !ident_pattern) ==> input_error(
            inputs,
        ) == Some(RpcInputError::PatternArgument),
        inputs[k] is Receiver && receiver_count(inputs.take(k)) == 1 ==> input_error(inputs) == Some(
            RpcInputError::DuplicatedReceiver,
        ),
{
    lemma_scan_ok(inputs.take(k));
    assert(inputs.take(k + 1).drop_last() =~= inputs.take(k));
    assert(inputs.take(k + 1).last() == inputs[k]);
    if scan_inputs(inputs.take(k + 1)) is Err {
        lemma_scan_sticks(inputs, k + 1);
    }
}

proof fn lemma_scan_err_kind(inputs: Seq<FnInput>)
    ensures
        scan_inputs(inputs) != Err::<Option<Seq<char>>, RpcInputError>(
            RpcInputError::MissingReceiver,
        ),
    decreases inputs.len(),
{
    if inputs.len() > 0 {
        lemma_scan_err_kind(inputs.drop_last());
    }
}

/// A method with no receiver and every parameter named by an identifier
/// is refused for its missing receiver, and for nothing else.
pub proof fn law_missing_receiver(inputs: Seq<FnInput>)
    ensures
        input_error(inputs) == Some(RpcInputError::MissingReceiver) <==> (receiver_count(inputs)
            == 0 && params_named(inputs)),
{
    lemma_scan_ok(inputs);
    lemma_scan_err_kind(inputs);
}

/// The input at `k` is a receiver written as `text`.
pub open spec fn receiver_text_at(inputs: Seq<FnInput>, k: int, text: Seq<char>) -> bool {
    match inputs[k] {
        FnInput::Receiver { text: t } => t@ == text,
        _ => false,
    }
}

/// Reading an RPC method keeps every parameter that is not the receiver,
/// and the receiver it keeps is the text of one of the inputs.
pub proof fn law_parse_keeps_inputs(inputs: Seq<FnInput>)
    ensures
        typed_args(inputs).len() + receiver_count(inputs) == inputs.len(),
        input_error(inputs) is None ==> exists|k: int|
            0 <= k < inputs.len() && #[trigger] receiver_text_at(inputs, k, receiver_of(inputs)),
    decreases inputs.len(),
{
    if inputs.len() > 0 {
        let init = inputs.drop_last();
        law_parse_keeps_inputs(init);
        lemma_scan_ok(inputs);
        lemma_scan_ok(init);
        let last = inputs.len() - 1;
        assert(inputs[last] == inputs.last());
        if input_error(inputs) is None {
            if inputs.last() is Receiver {
                assert(receiver_text_at(inputs, last, receiver_of(inputs)));
            } else {
                assert(input_error(init) is None);
                let k = choose|k: int|
                    0 <= k < init.len() && #[trigger] receiver_text_at(init, k, receiver_of(init));
                assert(init[k] == inputs[k]);
                assert(receiver_text_at(inputs, k, receiver_of(inputs)));
            }
        }
    }
}

} // verus!
