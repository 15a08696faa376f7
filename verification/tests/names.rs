use bincode_grpc::names::{create_fn_ident, declaration_ident, ident_fragment, suffixed_ident};

#[test]
fn create_fn_ident_is_snake_case() {
    assert_eq!(create_fn_ident("Greeter"), "create_greeter");
    assert_eq!(create_fn_ident("HelloWorld"), "create_hello_world");
    assert_eq!(create_fn_ident("XMLHttpRequest"), "create_xml_http_request");
}

#[test]
fn declaration_ident_is_shouty() {
    assert_eq!(declaration_ident("Greeter", "say_hello"), "METHOD_GREETER_SAY_HELLO");
    assert_eq!(declaration_ident("MyService", "getUser"), "METHOD_MY_SERVICE_GET_USER");
}

#[test]
fn raw_identifiers_lose_their_prefix() {
    assert_eq!(ident_fragment("r#type"), "type");
    assert_eq!(ident_fragment("rust"), "rust");
    assert_eq!(ident_fragment("r"), "r");
    assert_eq!(suffixed_ident("r#type", "_grpc"), "type_grpc");
    assert_eq!(suffixed_ident("say_hello", "_async_opt"), "say_hello_async_opt");
}
