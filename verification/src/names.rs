//! Identifiers that the generated code introduces, derived from the names
//! that the user wrote.
use heck::{ToShoutySnakeCase, ToSnakeCase};
use vstd::prelude::*;
use vstd::string::*;


verus! {

/// What `heck` makes of a name in snake case (`HelloWorld` to `hello_world`).
pub uninterp spec fn snake_case(name: Seq<char>) -> Seq<char>;

/// What `heck` makes of a name in shouty snake case (`sayHello` to `SAY_HELLO`).
pub uninterp spec fn shouty_snake_case(name: Seq<char>) -> Seq<char>;

/// Calls `heck::ToSnakeCase::to_snake_case` on `name`; its result is a
/// function of the name alone, and goes by the name `snake_case`.
#[verifier::external_body]
fn heck_snake_case(name: &str) -> (res: String)
    ensures
        res@ == snake_case(name@),
{
    name.to_snake_case()
}

/// Calls `heck::ToShoutySnakeCase::to_shouty_snake_case` on `name`; its
/// result is a function of the name alone, and goes by the name
/// `shouty_snake_case`.
#[verifier::external_body]
fn heck_shouty_snake_case(name: &str) -> (res: String)
    ensures
        res@ == shouty_snake_case(name@),
{
    name.to_shouty_snake_case()
}

/// Whether an identifier is written in raw form (`r#type`).
pub open spec fn is_raw(ident: Seq<char>) -> bool {
    ident.len() >= 2 && ident[0] == 'r' && ident[1] == '#'
}

/// The identifier as it reads when it is spliced into a new identifier:
/// a raw identifier loses its `r#`.
pub open spec fn fragment(ident: Seq<char>) -> Seq<char> {
    if is_raw(ident) {
        ident.skip(2)
    } else {
        ident
    }
}

/// The identifier as it reads when it is spliced into a new identifier.
pub fn ident_fragment(ident: &str) -> (res: String)
    ensures
        res@ == fragment(ident@),
{
    let len = ident.unicode_len();
    if len >= 2 && ident.get_char(0) == 'r' && ident.get_char(1) == '#' {
        String::from_str(ident.substring_char(2, len))
    } else {
        String::from_str(ident)
    }
}

/// An identifier followed by a suffix, as `format_ident!("{}suffix", ident)` builds it.
pub open spec fn suffixed(ident: Seq<char>, suffix: Seq<char>) -> Seq<char> {
    fragment(ident) + suffix
}

/// An identifier followed by a suffix, as `format_ident!("{}suffix", ident)` builds it.
pub fn suffixed_ident(ident: &str, suffix: &str) -> (res: String)
    ensures
        res@ == suffixed(ident@, suffix@),
{
    let mut res = ident_fragment(ident);
    res.append(suffix);
    res
}

/// `Greeter` to `create_greeter`: the function that builds the service.
pub open spec fn create_fn_name(service: Seq<char>) -> Seq<char> {
    "create_"@ + snake_case(service)
}

/// `Greeter` to `create_greeter`: the function that builds the service.
pub fn create_fn_ident(service: &str) -> (res: String)
    ensures
        res@ == create_fn_name(service@),
{
    let snake = heck_snake_case(service);
    let mut res = String::from_str("create_");
    res.append(snake.as_str());
    res
}

/// `Greeter` and `say_hello` to `METHOD_GREETER_SAY_HELLO`: the constant
/// that describes a method of a service.
pub open spec fn declaration_name(service: Seq<char>, method: Seq<char>) -> Seq<char> {
    "METHOD_"@ + shouty_snake_case(service) + "_"@ + shouty_snake_case(method)
}

/// `Greeter` and `say_hello` to `METHOD_GREETER_SAY_HELLO`.
pub fn declaration_ident(service: &str, method: &str) -> (res: String)
    ensures
        res@ == declaration_name(service@, method@),
{
    let service_part = heck_shouty_snake_case(service);
    let method_part = heck_shouty_snake_case(method);
    let mut res = String::from_str("METHOD_");
    res.append(service_part.as_str());
    res.append("_");
    res.append(method_part.as_str());
    res
}

} // verus!
