use vstd::prelude::*;

verus! {

/// A runtime value carried through the dispatch model: the plain payload
/// kinds a request or result can ship.
#[derive(PartialEq, Eq, Clone, Debug)]
pub enum Value {
    /// The unit value, returned by callables without a declared return type.
    Unit,
    /// An integer payload.
    Int(i64),
    /// A boolean payload.
    Truth(bool),
    /// A textual payload.
    Text(String),
}

/// A request value: which Request variant it is, as the callable's index in
/// the snapshot, and the positional argument values.
pub struct RequestValue {
    pub variant: usize,
    pub args: Vec<Value>,
}

/// A result value: the matching variant and the single value the callable
/// returned.
pub struct ResultValue {
    pub variant: usize,
    pub value: Value,
}

/// One step of a dispatch that the model records.
#[derive(PartialEq, Eq, Structural, Debug)]
pub enum DispatchEvent {
    /// The middleware hook with this index observes the request.
    Observed(usize),
    /// The callable matched by this variant index runs.
    Invoked(usize),
}

/// The observations a dispatch appends before the match: every middleware
/// hook, in registration order.
pub open spec fn observed_events(middleware_count: usize) -> Seq<DispatchEvent> {
    Seq::new(middleware_count as nat, |i: int| DispatchEvent::Observed(i as usize))
}

/// Everything one dispatch appends to the trace: each middleware hook
/// observes the request, in registration order, and then, after all of them,
/// the matched callable runs.
pub open spec fn dispatch_trace(middleware_count: usize, variant: usize) -> Seq<DispatchEvent> {
    observed_events(middleware_count).push(DispatchEvent::Invoked(variant))
}

/// The dispatcher over a snapshot of `callable_count` callables whose joint
/// behaviour is `implementation`: decodes the request, lets every middleware
/// hook observe it in registration order, then invokes the matched callable
/// and wraps its value under the same variant. Total over every request
/// whose variant is drawn from the snapshot, as the match is exhaustive; the
/// result is fixed by `implementation` and the request alone, so the hooks
/// never affect it.
pub fn dispatch<F: Fn(usize, Vec<Value>) -> Value>(
    implementation: F,
    callable_count: usize,
    middleware_count: usize,
    trace: &mut Vec<DispatchEvent>,
    request: RequestValue,
) -> (r: ResultValue)
    requires
        request.variant < callable_count,
        call_requires(implementation, (request.variant, request.args)),
    ensures
        final(trace)@ == old(trace)@ + dispatch_trace(middleware_count, request.variant),
        r.variant == request.variant,
        call_ensures(implementation, (request.variant, request.args), r.value),
{
    let ghost entry_trace = trace@;
    let mut i: usize = 0;
    while i < middleware_count
        invariant
            i <= middleware_count,
            trace@ == entry_trace + observed_events(i),
        decreases middleware_count - i,
    {
        trace.push(DispatchEvent::Observed(i));
        proof {
            assert(trace@ =~~= entry_trace + observed_events((i + 1) as usize));
        }
        i = i + 1;
    }
    trace.push(DispatchEvent::Invoked(request.variant));
    proof {
        assert(trace@ =~~= entry_trace + dispatch_trace(middleware_count, request.variant));
    }
    let RequestValue { variant, args } = request;
    let value = implementation(variant, args);
    ResultValue { variant, value }
}

/// Round trip and direct-call equivalence: dispatching the request built for
/// a callable yields a result under that callable's own variant, and its
/// value is the very value a direct call yields, whenever the
/// implementation's contract admits a single value for those arguments.
pub proof fn lemma_round_trip<F: Fn(usize, Vec<Value>) -> Value>(
    implementation: F,
    variant: usize,
    args: Vec<Value>,
    dispatched: ResultValue,
    direct: Value,
)
    requires
        dispatched.variant == variant,
        call_ensures(implementation, (variant, args), dispatched.value),
        call_ensures(implementation, (variant, args), direct),
        forall|v1: Value, v2: Value|
            call_ensures(implementation, (variant, args), v1) && call_ensures(
                implementation,
                (variant, args),
                v2,
            ) ==> v1 == v2,
    ensures
        dispatched.value == direct,
        dispatched.variant == variant,
{
    assert(call_ensures(implementation, (variant, args), dispatched.value) && call_ensures(
        implementation,
        (variant, args),
        direct,
    ));
}

/// Middleware order: in every dispatch trace, the hook registered first
/// observes the request before the hook registered after it, and every hook
/// observes it before the matched callable runs.
pub proof fn lemma_middleware_order(middleware_count: usize, variant: usize, i: int, j: int)
    requires
        0 <= i < j < middleware_count,
    ensures
        dispatch_trace(middleware_count, variant).len() == middleware_count + 1,
        dispatch_trace(middleware_count, variant)[i] == DispatchEvent::Observed(i as usize),
        dispatch_trace(middleware_count, variant)[j] == DispatchEvent::Observed(j as usize),
        dispatch_trace(middleware_count, variant)[middleware_count as int]
            == DispatchEvent::Invoked(variant),
{
}

} // verus!
