use distributable::descriptor::DistributableFunction;
use distributable::registry::{Registry, RegistryError};

fn descriptor(text: &str) -> DistributableFunction {
    DistributableFunction::new(text).unwrap()
}

#[test]
fn registers_callables_in_order() {
    let mut reg = Registry::new();
    assert!(reg.register_callable(descriptor("fn add(x: i32, y: i32) -> i32 { x + y }")).is_ok());
    assert!(reg.register_callable(descriptor("fn sub(x: i32, y: i32) -> i32 { x - y }")).is_ok());
    let (callables, middleware) = reg.snapshot();
    assert_eq!(callables.len(), 2);
    assert_eq!(callables[0].name, "add");
    assert_eq!(callables[1].name, "sub");
    assert_eq!(middleware.len(), 0);
}

#[test]
fn rejects_duplicate_callable_name() {
    let mut reg = Registry::new();
    assert!(reg.register_callable(descriptor("fn add(x: i32, y: i32) -> i32 { x + y }")).is_ok());
    let r = reg.register_callable(descriptor("fn add(z: u64) -> u64 { z }"));
    assert_eq!(r, Err(RegistryError::DuplicateName));
    let (callables, _) = reg.snapshot();
    assert_eq!(callables.len(), 1);
}

#[test]
fn rejects_colliding_variant_names() {
    let mut reg = Registry::new();
    assert!(reg.register_callable(descriptor("fn my_func(x: u8) {}")).is_ok());
    let r = reg.register_callable(descriptor("fn myFunc(y: u8) {}"));
    assert_eq!(r, Err(RegistryError::VariantNameCollision));
}

#[test]
fn middleware_names_need_not_be_distinct() {
    let mut reg = Registry::new();
    assert!(reg.register_middleware(descriptor("fn log_call(req: u8, name: u8) {}")).is_ok());
    assert!(reg.register_middleware(descriptor("fn log_call(req: u8, name: u8) {}")).is_ok());
    let (_, middleware) = reg.snapshot();
    assert_eq!(middleware.len(), 2);
}

#[test]
fn finalize_closes_registration() {
    let mut reg = Registry::new();
    reg.finalize_registration();
    let r = reg.register_callable(descriptor("fn add(x: i32) -> i32 { x }"));
    assert_eq!(r, Err(RegistryError::RegistrationClosed));
    let r = reg.register_middleware(descriptor("fn log_call(req: u8, name: u8) {}"));
    assert_eq!(r, Err(RegistryError::RegistrationClosed));
    let (callables, middleware) = reg.snapshot();
    assert_eq!(callables.len(), 0);
    assert_eq!(middleware.len(), 0);
}
