//! The service trait that `#[service]` reads: its methods, their receivers,
//! parameters and result types, each held as the source text it was written in.
use vstd::prelude::*;

use crate::text::views;

verus! {

/// One parameter of a trait method, as written.
pub enum FnInput {
    /// `self` in one of its forms.
    Receiver { text: String },
    /// `pat: Type`; `ident_pattern` when the pattern is a plain identifier.
    Typed { pat: String, ty: String, ident_pattern: bool },
}

/// A typed parameter of an RPC method: its pattern and its type.
pub struct Arg {
    pub pat: String,
    pub ty: String,
}

/// A trait method as written: `#[attrs] fn ident(inputs) -> output;`.
pub struct RpcSignature {
    pub attrs: Vec<String>,
    pub ident: String,
    pub inputs: Vec<FnInput>,
    /// The result type, if the method declares one.
    pub output: Option<String>,
}

/// An RPC method of a service: a trait method with one receiver, whose
/// parameters are all named by plain identifiers.
pub struct RpcMethod {
    pub attrs: Vec<String>,
    pub ident: String,
    pub args: Vec<Arg>,
    pub receiver: String,
    pub output: Option<String>,
}

/// Why a trait method cannot be an RPC method.
#[derive(PartialEq, Eq, Structural, Debug, Clone, Copy)]
pub enum RpcInputError {
    /// A second receiver.
    DuplicatedReceiver,
    /// A parameter named by a pattern other than an identifier.
    PatternArgument,
    /// No receiver at all.
    MissingReceiver,
}

/// A service trait: `#[attrs] vis trait ident { rpcs }`.
pub struct Service {
    pub attrs: Vec<String>,
    pub vis: String,
    pub ident: String,
    pub rpcs: Vec<RpcMethod>,
}

/// The text of an optional string.
pub open spec fn opt_view(o: Option<String>) -> Option<Seq<char>> {
    match o {
        Some(s) => Some(s@),
        None => None,
    }
}

/// The pattern and type of each parameter.
pub open spec fn arg_views(args: Seq<Arg>) -> Seq<(Seq<char>, Seq<char>)> {
    args.map_values(|a: Arg| (a.pat@, a.ty@))
}

/// Reads the inputs from left to right, as the parser meets them: the first
/// offending input decides the error; otherwise the receiver seen so far.
pub open spec fn scan_inputs(inputs: Seq<FnInput>) -> Result<Option<Seq<char>>, RpcInputError>
    decreases inputs.len(),
{
    if inputs.len() == 0 {
        Ok(None)
    } else {
        match scan_inputs(inputs.drop_last()) {
            Err(e) => Err(e),
            Ok(seen) => match inputs.last() {
                FnInput::Receiver { text } => {
                    if seen is Some {
                        Err(RpcInputError::DuplicatedReceiver)
                    } else {
                        Ok(Some(text@))
                    }
                },
                FnInput::Typed { ident_pattern, .. } => {
                    if !ident_pattern {
                        Err(RpcInputError::PatternArgument)
                    } else {
                        Ok(seen)
                    }
                },
            },
        }
    }
}

/// Why the inputs cannot be those of an RPC method, if they cannot.
pub open spec fn input_error(inputs: Seq<FnInput>) -> Option<RpcInputError> {
    match scan_inputs(inputs) {
        Err(e) => Some(e),
        Ok(None) => Some(RpcInputError::MissingReceiver),
        Ok(Some(_)) => None,
    }
}

/// The receiver among the inputs.
pub open spec fn receiver_of(inputs: Seq<FnInput>) -> Seq<char> {
    match scan_inputs(inputs) {
        Ok(Some(r)) => r,
        _ => Seq::empty(),
    }
}

/// The typed parameters among the inputs, in order, as pattern and type.
pub open spec fn typed_args(inputs: Seq<FnInput>) -> Seq<(Seq<char>, Seq<char>)>
    decreases inputs.len(),
{
    if inputs.len() == 0 {
        Seq::empty()
    } else {
        match inputs.last() {
            FnInput::Typed { pat, ty, .. } => typed_args(inputs.drop_last()).push((pat@, ty@)),
            FnInput::Receiver { .. } => typed_args(inputs.drop_last()),
        }
    }
}

/// `rpc` is what `sig` becomes as an RPC method.
pub open spec fn parsed_from(rpc: RpcMethod, sig: RpcSignature) -> bool {
    &&& views(rpc.attrs@) == views(sig.attrs@)
    &&& rpc.ident@ == sig.ident@
    &&& arg_views(rpc.args@) == typed_args(sig.inputs@)
    &&& rpc.receiver@ == receiver_of(sig.inputs@)
    &&& opt_view(rpc.output) == opt_view(sig.output)
}

pub(crate) fn clone_strings(v: &Vec<String>) -> (res: Vec<String>)
    ensures
        res@ == v@,
{
    let mut res: Vec<String> = Vec::new();
    let mut i: usize = 0;
    while i < v.len()
        invariant
            i <= v@.len(),
            res@ == v@.take(i as int),
        decreases v@.len() - i,
    {
        res.push(v[i].clone());
        assert(res@ =~= v@.take(i + 1));
        i = i + 1;
    }
    assert(v@.take(v@.len() as int) =~= v@);
    res
}

pub(crate) fn clone_opt(o: &Option<String>) -> (res: Option<String>)
    ensures
        res == *o,
{
    match o {
        Some(s) => Some(s.clone()),
        None => None,
    }
}

impl RpcInputError {
    /// The message with which a method that breaks the rule is refused.
    pub fn message(&self) -> (res: &'static str)
        ensures
            res@ == match *self {
                RpcInputError::DuplicatedReceiver => "duplicated self"@,
                RpcInputError::PatternArgument => "patterns aren't allowd in RPC args"@,
                RpcInputError::MissingReceiver => "called `Option::unwrap()` on a `None` value"@,
            },
    {
        match self {
            RpcInputError::DuplicatedReceiver => "duplicated self",
            RpcInputError::PatternArgument => "patterns aren't allowd in RPC args",
            RpcInputError::MissingReceiver => "called `Option::unwrap()` on a `None` value",
        }
    }
}

impl RpcInputError {
    /// Whether the error is found while the parameters are read, before the
    /// result type is; only a missing receiver is found after it.
    pub fn found_in_inputs(&self) -> (res: bool)
        ensures
            res == !(*self is MissingReceiver),
    {
        match self {
            RpcInputError::MissingReceiver => false,
            _ => true,
        }
    }
}

impl RpcSignature {
    /// Why this method cannot be an RPC method, if it cannot: its inputs are
    /// read from left to right and the first that breaks a rule decides.
    pub fn check(&self) -> (res: Option<RpcInputError>)
        ensures
            res == input_error(self.inputs@),
    {
        let inputs = &self.inputs;
        let mut seen = false;
        let mut i: usize = 0;
        while i < inputs.len()
            invariant
                i <= inputs@.len(),
                inputs@ == self.inputs@,
                scan_inputs(inputs@.take(i as int)) is Ok,
                seen == scan_inputs(inputs@.take(i as int))->Ok_0 is Some,
            decreases inputs@.len() - i,
        {
            assert(inputs@.take(i + 1).drop_last() =~= inputs@.take(i as int));
            match &inputs[i] {
                FnInput::Receiver { .. } => {
                    if seen {
                        proof { self.lemma_error_sticks(i as int + 1); }
                        return Some(RpcInputError::DuplicatedReceiver);
                    } else {
                        seen = true;
                    }
                },
                FnInput::Typed { ident_pattern, .. } => {
                    if !*ident_pattern {
                        proof { self.lemma_error_sticks(i as int + 1); }
                        return Some(RpcInputError::PatternArgument);
                    }
                },
            }
            i = i + 1;
        }
        assert(inputs@.take(inputs@.len() as int) =~= inputs@);
        if seen {
            None
        } else {
            Some(RpcInputError::MissingReceiver)
        }
    }

    /// Once a prefix of the inputs is refused, so are all the inputs, for the same reason.
    proof fn lemma_error_sticks(&self, k: int)
        requires
            0 <= k <= self.inputs@.len(),
            scan_inputs(self.inputs@.take(k)) is Err,
        ensures
            scan_inputs(self.inputs@) == scan_inputs(self.inputs@.take(k)),
        decreases self.inputs@.len() - k,
    {
        if k == self.inputs@.len() {
            assert(self.inputs@.take(k) =~= self.inputs@);
        } else {
            assert(self.inputs@.take(k + 1).drop_last() =~= self.inputs@.take(k));
            self.lemma_error_sticks(k + 1);
        }
    }
}

impl RpcMethod {
    /// Reads a trait method as an RPC method: its typed parameters in order,
    /// its receiver, its attributes, name and result type.
    pub fn parse(sig: &RpcSignature) -> (res: RpcMethod)
        requires
            input_error(sig.inputs@) is None,
        ensures
            parsed_from(res, *sig),
    {
        let inputs = &sig.inputs;
        let mut args: Vec<Arg> = Vec::new();
        let mut receiver: Option<String> = None;
        let mut i: usize = 0;
        while i < inputs.len()
            invariant
                i <= inputs@.len(),
                inputs@ == sig.inputs@,
                input_error(sig.inputs@) is None,
                scan_inputs(inputs@.take(i as int)) is Ok,
                opt_view(receiver) == scan_inputs(inputs@.take(i as int))->Ok_0,
                arg_views(args@) == typed_args(inputs@.take(i as int)),
            decreases inputs@.len() - i,
        {
            assert(inputs@.take(i + 1).drop_last() =~= inputs@.take(i as int));
            proof {
                if scan_inputs(inputs@.take(i + 1)) is Err {
                    sig.lemma_error_sticks(i as int + 1);
                }
            }
            match &inputs[i] {
                FnInput::Receiver { text, .. } => {
                    receiver = Some(text.clone());
                },
                FnInput::Typed { pat, ty, .. } => {
                    let ghost before = args@;
                    args.push(Arg { pat: pat.clone(), ty: ty.clone() });
                    assert(arg_views(args@) =~= arg_views(before).push((pat@, ty@)));
                },
            }
            i = i + 1;
        }
        assert(inputs@.take(inputs@.len() as int) =~= inputs@);
        let receiver = match receiver {
            Some(r) => r,
            None => String::new(),
        };
        RpcMethod {
            attrs: clone_strings(&sig.attrs),
            ident: sig.ident.clone(),
            args,
            receiver,
            output: clone_opt(&sig.output),
        }
    }
}

impl Service {
    /// Reads a service trait: its attributes, visibility, name, and each of
    /// its methods as an RPC method, in order.
    pub fn parse(attrs: Vec<String>, vis: String, ident: String, methods: &Vec<RpcSignature>) -> (res: Service)
        requires
            forall|k: int| 0 <= k < methods@.len() ==> input_error(#[trigger] methods@[k].inputs@) is None,
        ensures
            res.attrs == attrs,
            res.vis == vis,
            res.ident == ident,
            res.rpcs@.len() == methods@.len(),
            forall|k: int| 0 <= k < methods@.len() ==> parsed_from(#[trigger] res.rpcs@[k], methods@[k]),
    {
        let mut rpcs: Vec<RpcMethod> = Vec::new();
        let mut i: usize = 0;
        while i < methods.len()
            invariant
                i <= methods@.len(),
                forall|k: int| 0 <= k < methods@.len() ==> input_error(#[trigger] methods@[k].inputs@) is None,
                rpcs@.len() == i,
                forall|k: int| 0 <= k < i ==> parsed_from(#[trigger] rpcs@[k], methods@[k]),
            decreases methods@.len() - i,
        {
            let rpc = RpcMethod::parse(&methods[i]);
            rpcs.push(rpc);
            i = i + 1;
        }
        Service { attrs, vis, ident, rpcs }
    }
}

} // verus!
