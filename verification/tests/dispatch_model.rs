use distributable::model::{dispatch, DispatchEvent, RequestValue, Value};

fn add_table(variant: usize, args: Vec<Value>) -> Value {
    match variant {
        0 => {
            let x = match args[0] {
                Value::Int(v) => v,
                _ => panic!("wrong payload"),
            };
            let y = match args[1] {
                Value::Int(v) => v,
                _ => panic!("wrong payload"),
            };
            Value::Int(x + y)
        },
        1 => Value::Unit,
        _ => panic!("variant outside the snapshot"),
    }
}

#[test]
fn dispatching_add_request_yields_add_result() {
    let mut trace: Vec<DispatchEvent> = Vec::new();
    let request = RequestValue { variant: 0, args: vec![Value::Int(2), Value::Int(3)] };
    let result = dispatch(add_table, 2, 1, &mut trace, request);
    assert_eq!(result.variant, 0);
    assert_eq!(result.value, Value::Int(5));
}

#[test]
fn dispatch_equals_direct_call() {
    let args = vec![Value::Int(40), Value::Int(2)];
    let direct = add_table(0, args.clone());
    let mut trace: Vec<DispatchEvent> = Vec::new();
    let request = RequestValue { variant: 0, args };
    let result = dispatch(add_table, 2, 0, &mut trace, request);
    assert_eq!(result.value, direct);
    assert_eq!(result.variant, 0);
}

#[test]
fn middleware_observes_in_order_before_the_callable_runs() {
    let mut trace: Vec<DispatchEvent> = Vec::new();
    let request = RequestValue { variant: 1, args: vec![] };
    let result = dispatch(add_table, 2, 2, &mut trace, request);
    assert_eq!(result.variant, 1);
    assert_eq!(result.value, Value::Unit);
    assert_eq!(
        trace,
        vec![DispatchEvent::Observed(0), DispatchEvent::Observed(1), DispatchEvent::Invoked(1)]
    );
}

#[test]
fn middleware_does_not_affect_the_result() {
    let args = vec![Value::Int(7), Value::Int(8)];
    let mut trace_without: Vec<DispatchEvent> = Vec::new();
    let r_without = dispatch(
        add_table,
        2,
        0,
        &mut trace_without,
        RequestValue { variant: 0, args: args.clone() },
    );
    let mut trace_with: Vec<DispatchEvent> = Vec::new();
    let r_with = dispatch(add_table, 2, 3, &mut trace_with, RequestValue { variant: 0, args });
    assert_eq!(r_without.value, r_with.value);
    assert_eq!(r_without.variant, r_with.variant);
    assert_eq!(trace_without, vec![DispatchEvent::Invoked(0)]);
    assert_eq!(
        trace_with,
        vec![
            DispatchEvent::Observed(0),
            DispatchEvent::Observed(1),
            DispatchEvent::Observed(2),
            DispatchEvent::Invoked(0)
        ]
    );
}
