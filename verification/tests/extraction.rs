use distributable::descriptor::{DistributableFunction, ExtractError};

#[test]
fn extracts_name_arguments_and_return_type() {
    let d = DistributableFunction::new("fn add(x: i32, y: i32) -> i32 { x + y }").unwrap();
    assert_eq!(d.name, "add");
    assert_eq!(d.arguments.len(), 2);
    assert_eq!(d.arguments[0].name, "x");
    assert_eq!(d.arguments[0].ty, "i32");
    assert_eq!(d.arguments[1].name, "y");
    assert_eq!(d.arguments[1].ty, "i32");
    assert_eq!(d.return_type, "i32");
    assert!(d.raw.contains("add"));
}

#[test]
fn substitutes_unit_for_missing_return_type() {
    let d = DistributableFunction::new("fn ping() {}").unwrap();
    assert_eq!(d.name, "ping");
    assert_eq!(d.arguments.len(), 0);
    assert_eq!(d.return_type, "()");
}

#[test]
fn rejects_text_that_is_not_a_function() {
    let r = DistributableFunction::new("struct Foo;");
    assert!(matches!(r, Err(ExtractError::Malformed)));
    let r = DistributableFunction::new("not rust at all");
    assert!(matches!(r, Err(ExtractError::Malformed)));
}

#[test]
fn rejects_destructuring_parameter_pattern() {
    let r = DistributableFunction::new("fn f((a, b): (i32, i32)) -> i32 { a + b }");
    assert!(matches!(r, Err(ExtractError::UnsupportedParameter)));
}

#[test]
fn rejects_receiver_parameter() {
    let r = DistributableFunction::new("fn f(&self, x: u8) -> u8 { x }");
    assert!(matches!(r, Err(ExtractError::UnsupportedParameter)));
}

#[test]
fn derives_pascal_variant_name() {
    let d = DistributableFunction::new("fn my_func_name(x: u8) {}").unwrap();
    assert_eq!(d.get_pascal_name(), "MyFuncName");
    let d = DistributableFunction::new("fn add(x: i32) {}").unwrap();
    assert_eq!(d.get_pascal_name(), "Add");
}

#[test]
fn renders_argument_texts_in_declared_order() {
    let d = DistributableFunction::new("fn f(b: u8, a: String) -> bool { true }").unwrap();
    assert_eq!(d.get_arg_types(), "(u8,String)");
    assert_eq!(d.get_arg_names(), "(b,a)");
    assert_eq!(d.get_full_arg_sig(), "(b:u8,a:String)");
    assert_eq!(d.get_name(), "f");
    assert_eq!(d.get_return_type(), "bool");
}

#[test]
fn stored_declaration_text_reparses() {
    let d = DistributableFunction::new("fn add(x: i32, y: i32) -> i32 { x + y }").unwrap();
    assert!(d.get_item_fn().is_some());
}

#[test]
fn renders_empty_tuples_for_zero_arguments() {
    let d = DistributableFunction::new("fn nullary() -> u64 { 7 }").unwrap();
    assert_eq!(d.get_arg_types(), "()");
    assert_eq!(d.get_arg_names(), "()");
    assert_eq!(d.get_full_arg_sig(), "()");
}
