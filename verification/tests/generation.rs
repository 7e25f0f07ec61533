use distributable::descriptor::DistributableFunction;
use distributable::dispatcher::{build, build_middleware_function, build_redirect_function, BuildError};
use distributable::protocol::{request_union_text, result_union_text, synthesize_protocol};
use distributable::registry::Registry;
use distributable::{distributable as distributable_attr, middleware as middleware_attr, AttributeError};

fn descriptor(text: &str) -> DistributableFunction {
    DistributableFunction::new(text).unwrap()
}

#[test]
fn protocol_has_one_variant_pair_per_callable() {
    let mut reg = Registry::new();
    reg.register_callable(descriptor("fn add(x: i32, y: i32) -> i32 { x + y }")).unwrap();
    reg.register_callable(descriptor("fn shout(msg: String) {}")).unwrap();
    let (callables, _) = reg.snapshot();
    let p = synthesize_protocol(callables);
    assert_eq!(p.requests.len(), 2);
    assert_eq!(p.results.len(), 2);
    assert_eq!(p.requests[0].name, "Add");
    assert_eq!(p.requests[0].payload, vec!["i32".to_owned(), "i32".to_owned()]);
    assert_eq!(p.results[0].name, "Add");
    assert_eq!(p.results[0].payload, "i32");
    assert_eq!(p.requests[1].name, "Shout");
    assert_eq!(p.requests[1].payload, vec!["String".to_owned()]);
    assert_eq!(p.results[1].name, "Shout");
    assert_eq!(p.results[1].payload, "()");
}

#[test]
fn renders_request_and_result_unions() {
    let mut reg = Registry::new();
    reg.register_callable(descriptor("fn add(x: i32, y: i32) -> i32 { x + y }")).unwrap();
    reg.register_callable(descriptor("fn ping() {}")).unwrap();
    let (callables, _) = reg.snapshot();
    let p = synthesize_protocol(callables);
    assert_eq!(
        request_union_text(&p),
        "#[derive(serde::Serialize, serde::Deserialize)]\nenum Distributable {\nAdd(i32,i32),\nPing()\n}\n"
    );
    assert_eq!(
        result_union_text(&p),
        "#[derive(serde::Serialize, serde::Deserialize)]\nenum ReverseDistributable {\nAdd(i32),\nPing(())\n}\n"
    );
}

#[test]
fn distributable_leaves_declaration_site_unchanged() {
    let text = "fn add(x: i32, y: i32) -> i32 { x + y }";
    let mut reg = Registry::new();
    let site = distributable_attr(&mut reg, text).unwrap();
    assert_eq!(site, descriptor(text).raw);
    assert!(site.contains("add"));
    let (callables, _) = reg.snapshot();
    assert_eq!(callables.len(), 1);
    assert_eq!(callables[0].name, "add");
}

#[test]
fn middleware_keeps_declaration_callable() {
    let mut reg = Registry::new();
    let site = middleware_attr(&mut reg, "fn log_call(req: u8, name: u8) {}").unwrap();
    assert!(site.starts_with("#[allow(dead_code)]\n"));
    assert!(site.contains("log_call"));
    let (_, middleware) = reg.snapshot();
    assert_eq!(middleware.len(), 1);
}

#[test]
fn attribute_errors_leave_registry_unchanged() {
    let mut reg = Registry::new();
    let r = distributable_attr(&mut reg, "enum NotAFunction {}");
    assert_eq!(r, Err(AttributeError::Malformed));
    let r = middleware_attr(&mut reg, "fn f((a, b): (u8, u8)) {}");
    assert_eq!(r, Err(AttributeError::UnsupportedParameter));
    let (callables, middleware) = reg.snapshot();
    assert_eq!(callables.len(), 0);
    assert_eq!(middleware.len(), 0);
}

#[test]
fn build_requires_finalized_registration() {
    let mut reg = Registry::new();
    reg.register_callable(descriptor("fn add(x: i32) -> i32 { x }")).unwrap();
    assert_eq!(build(&reg), Err(BuildError::RegistrationOpen));
    reg.finalize_registration();
    assert!(build(&reg).is_ok());
}

#[test]
fn build_emits_dispatcher_and_unions() {
    let mut reg = Registry::new();
    distributable_attr(&mut reg, "fn add(x: i32, y: i32) -> i32 { x + y }").unwrap();
    middleware_attr(&mut reg, "fn log_call(req: u8, name: u8) {}").unwrap();
    reg.finalize_registration();
    let out = build(&reg).unwrap();
    assert!(out.contains(
        "fn redirect_to_function(d: Distributable, function_name: &str) -> ReverseDistributable {\n"
    ));
    assert!(out.contains(
        "fn internal_add(x:i32,y:i32) -> ReverseDistributable {\nlet val = ReverseDistributable::Add(add(x,y));\nreturn val;\n}\n"
    ));
    assert!(out.contains("Distributable::Add(x,y) => internal_add(x,y)"));
    assert_eq!(out.matches("log_call(&d, &function_name);").count(), 1);
    assert!(out.contains("println!(\"[RedirectToFunction] function {}\", &function_name);"));
    assert!(out.contains("println!(\"[RedirectToFunction] Returning from {}\", &function_name);"));
    assert!(out.contains(
        "#[derive(serde::Serialize, serde::Deserialize)]\nenum Distributable {\nAdd(i32,i32)\n}\n"
    ));
    assert!(out.contains(
        "#[derive(serde::Serialize, serde::Deserialize)]\nenum ReverseDistributable {\nAdd(i32)\n}\n"
    ));
}

#[test]
fn middleware_woven_in_registration_order_before_match() {
    let mut reg = Registry::new();
    reg.register_middleware(descriptor("fn first_hook(req: u8, name: u8) {}")).unwrap();
    reg.register_middleware(descriptor("fn second_hook(req: u8, name: u8) {}")).unwrap();
    let (_, middleware) = reg.snapshot();
    let part = build_middleware_function(middleware);
    let first_call = part.find("first_hook(&d, &function_name);").unwrap();
    let second_call = part.find("second_hook(&d, &function_name);").unwrap();
    assert!(first_call < second_call);
    let (callables, middleware) = reg.snapshot();
    let dispatcher = build_redirect_function(callables, middleware);
    let first_call = dispatcher.find("first_hook(&d, &function_name);").unwrap();
    let second_call = dispatcher.find("second_hook(&d, &function_name);").unwrap();
    let match_pos = dispatcher.find("let result = match d {").unwrap();
    assert!(first_call < second_call);
    assert!(second_call < match_pos);
}

#[test]
fn synthesis_is_deterministic() {
    let make = || {
        let mut reg = Registry::new();
        distributable_attr(&mut reg, "fn add(x: i32, y: i32) -> i32 { x + y }").unwrap();
        distributable_attr(&mut reg, "fn shout(msg: String) {}").unwrap();
        middleware_attr(&mut reg, "fn log_call(req: u8, name: u8) {}").unwrap();
        reg.finalize_registration();
        reg
    };
    let reg1 = make();
    let reg2 = make();
    let out1 = build(&reg1).unwrap();
    let out2 = build(&reg2).unwrap();
    assert_eq!(out1, out2);
    let again = build(&reg1).unwrap();
    assert_eq!(out1, again);
}

#[test]
fn build_on_empty_registry_emits_closed_empty_unions() {
    let mut reg = Registry::new();
    reg.finalize_registration();
    let out = build(&reg).unwrap();
    assert!(out.contains("enum Distributable {\n\n}\n"));
    assert!(out.contains("enum ReverseDistributable {\n\n}\n"));
}
