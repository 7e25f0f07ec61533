use vstd::prelude::*;

use crate::descriptor::{
    name_texts, sig_texts, tuple_text, DistributableFunction, DistributableFunctionView,
};
use crate::names::pascal_of;
use crate::protocol::{protocol_of, request_union_text_of, result_union_text_of};
use crate::registry::Registry;
use crate::text::{join_strings, join_with};

verus! {

/// The text of one adapter: a uniformly named function with the callable's
/// own parameter list that calls the declaration-site function through its
/// name — one indirection, no duplicated body — and wraps the returned
/// value in the matching Result union variant.
pub open spec fn adapter_text(f: DistributableFunctionView) -> Seq<char> {
    "fn internal_"@ + f.name + tuple_text(sig_texts(f.arguments))
        + " -> ReverseDistributable {\n"@
        + "let val = ReverseDistributable::"@ + pascal_of(f.name) + seq!['('] + f.name
        + tuple_text(name_texts(f.arguments)) + ");\n"@ + "return val;\n}\n"@
}

/// The text of one match arm: the destructured Request variant on the left,
/// the call of its adapter with the same payload re-spread positionally on
/// the right.
pub open spec fn match_arm_text(f: DistributableFunctionView) -> Seq<char> {
    "Distributable::"@ + pascal_of(f.name) + tuple_text(name_texts(f.arguments))
        + " => internal_"@ + f.name + tuple_text(name_texts(f.arguments))
}

/// The middleware part of the dispatcher: one unconditional invocation per
/// registered hook, in registration order, each with the two-argument
/// calling convention of a request reference and the function name. The
/// hooks themselves stay at their declaration sites and are reached through
/// their names.
pub open spec fn middleware_text_of(ms: Seq<DistributableFunctionView>) -> Seq<char> {
    join_with(
        ms.map_values(|m: DistributableFunctionView| m.name + "(&d, &function_name);"@),
        "\n"@,
    ) + "\n"@
}

/// The diagnostic trace emitted before the match.
pub open spec fn trace_enter_text() -> Seq<char> {
    "println!(\"[RedirectToFunction] function {}\", &function_name);\n"@
}

/// The diagnostic trace emitted after the match.
pub open spec fn trace_exit_text() -> Seq<char> {
    "println!(\"[RedirectToFunction] Returning from {}\", &function_name);\n"@
}

/// The complete dispatcher text: one adapter per callable, the entry trace,
/// the middleware chain, an exhaustive match from each Request variant to its
/// adapter with no fallback arm, the exit trace, and the result.
pub open spec fn redirect_function_text_of(
    callables: Seq<DistributableFunctionView>,
    ms: Seq<DistributableFunctionView>,
) -> Seq<char> {
    "fn redirect_to_function(d: Distributable, function_name: &str) -> ReverseDistributable {\n"@
        + join_with(callables.map_values(|f: DistributableFunctionView| adapter_text(f)), "\n"@)
        + "\n"@ + trace_enter_text() + middleware_text_of(ms) + "let result = match d {\n"@
        + join_with(callables.map_values(|f: DistributableFunctionView| match_arm_text(f)), ",\n"@)
        + "\n};\n"@ + trace_exit_text() + "return result\n}\n"@
}

/// The text a callable registration leaves at its declaration site: the
/// declaration itself, unchanged, so the function stays directly callable
/// and testable independent of the dispatch path — registration only
/// observes, it never removes.
pub open spec fn callable_site_text(f: DistributableFunctionView) -> Seq<char> {
    f.raw
}

/// The text that a middleware registration leaves at its declaration site:
/// the declaration itself, unchanged, kept callable independent of the
/// dispatch path.
pub open spec fn middleware_site_text(f: DistributableFunctionView) -> Seq<char> {
    "#[allow(dead_code)]\n"@ + f.raw
}

/// The whole generated surface at the build trigger: the dispatcher, then the
/// Request union, then the Result union.
pub open spec fn generated_output_text_of(
    callables: Seq<DistributableFunctionView>,
    ms: Seq<DistributableFunctionView>,
) -> Seq<char> {
    redirect_function_text_of(callables, ms) + request_union_text_of(protocol_of(callables).requests)
        + result_union_text_of(protocol_of(callables).results)
}

impl DistributableFunction {
    /// Renders this callable's adapter.
    pub fn get_adapter_text(&self) -> (r: String)
        ensures
            r@ == adapter_text(self@),
    {
        let mut r = "fn internal_".to_owned();
        r.append(self.name.as_str());
        let sig = self.get_full_arg_sig();
        r.append(sig.as_str());
        r.append(" -> ReverseDistributable {\n");
        r.append("let val = ReverseDistributable::");
        let pascal = self.get_pascal_name();
        r.append(pascal.as_str());
        r.append("(");
        proof {
            reveal_strlit("(");
        }
        r.append(self.name.as_str());
        let names = self.get_arg_names();
        r.append(names.as_str());
        r.append(");\n");
        r.append("return val;\n}\n");
        proof {
            assert(r@ =~~= adapter_text(self@));
        }
        r
    }

    /// Renders this callable's match arm.
    pub fn get_match_arm_text(&self) -> (r: String)
        ensures
            r@ == match_arm_text(self@),
    {
        let mut r = "Distributable::".to_owned();
        let pascal = self.get_pascal_name();
        r.append(pascal.as_str());
        let names = self.get_arg_names();
        r.append(names.as_str());
        r.append(" => internal_");
        r.append(self.name.as_str());
        r.append(names.as_str());
        proof {
            assert(r@ =~~= match_arm_text(self@));
        }
        r
    }

    /// Renders the text left at a middleware declaration site.
    pub fn get_middleware_site_text(&self) -> (r: String)
        ensures
            r@ == middleware_site_text(self@),
    {
        let mut r = "#[allow(dead_code)]\n".to_owned();
        r.append(self.raw.as_str());
        proof {
            assert(r@ =~~= middleware_site_text(self@));
        }
        r
    }
}

/// Renders the middleware part of the dispatcher: one unconditional
/// invocation per registered hook, in registration order.
pub fn build_middleware_function(middleware: &Vec<DistributableFunction>) -> (r: String)
    ensures
        r@ == middleware_text_of(middleware.deep_view()),
{
    let ghost dv = middleware.deep_view();
    let mut calls: Vec<String> = Vec::new();
    let mut i: usize = 0;
    while i < middleware.len()
        invariant
            dv == middleware.deep_view(),
            i <= middleware.len(),
            calls@.len() == i,
            forall|j: int| 0 <= j < i ==> calls@[j]@ == dv[j].name + "(&d, &function_name);"@,
        decreases middleware.len() - i,
    {
        proof {
            assert(dv[i as int] == middleware@[i as int].deep_view());
        }
        let mut c = middleware[i].get_name();
        c.append("(&d, &function_name);");
        calls.push(c);
        i = i + 1;
    }
    proof {
        assert forall|j: int| 0 <= j < calls@.len() implies calls.deep_view()[j] == dv.map_values(
            |m: DistributableFunctionView| m.name + "(&d, &function_name);"@,
        )[j] by {
            assert(calls.deep_view()[j] == calls@[j]@);
        }
        assert(calls.deep_view() =~~= dv.map_values(
            |m: DistributableFunctionView| m.name + "(&d, &function_name);"@,
        ));
    }
    let mut r = join_strings(&calls, "\n");
    r.append("\n");
    proof {
        assert(r@ =~~= middleware_text_of(dv));
    }
    r
}

/// Renders the whole dispatcher: adapters for every callable, the entry
/// trace, the middleware chain, the exhaustive match, the exit trace.
pub fn build_redirect_function(
    callables: &Vec<DistributableFunction>,
    middleware: &Vec<DistributableFunction>,
) -> (r: String)
    ensures
        r@ == redirect_function_text_of(callables.deep_view(), middleware.deep_view()),
{
    let ghost dv = callables.deep_view();
    let mut adapters: Vec<String> = Vec::new();
    let mut i: usize = 0;
    while i < callables.len()
        invariant
            dv == callables.deep_view(),
            i <= callables.len(),
            adapters@.len() == i,
            forall|j: int| 0 <= j < i ==> adapters@[j]@ == adapter_text(dv[j]),
        decreases callables.len() - i,
    {
        proof {
            assert(dv[i as int] == callables@[i as int].deep_view());
        }
        adapters.push(callables[i].get_adapter_text());
        i = i + 1;
    }
    let mut arms: Vec<String> = Vec::new();
    let mut i: usize = 0;
    while i < callables.len()
        invariant
            dv == callables.deep_view(),
            i <= callables.len(),
            arms@.len() == i,
            forall|j: int| 0 <= j < i ==> arms@[j]@ == match_arm_text(dv[j]),
        decreases callables.len() - i,
    {
        proof {
            assert(dv[i as int] == callables@[i as int].deep_view());
        }
        arms.push(callables[i].get_match_arm_text());
        i = i + 1;
    }
    proof {
        assert forall|j: int| 0 <= j < adapters@.len() implies adapters.deep_view()[j]
            == dv.map_values(|f: DistributableFunctionView| adapter_text(f))[j] by {
            assert(adapters.deep_view()[j] == adapters@[j]@);
        }
        assert(adapters.deep_view() =~~= dv.map_values(
            |f: DistributableFunctionView| adapter_text(f),
        ));
        assert forall|j: int| 0 <= j < arms@.len() implies arms.deep_view()[j] == dv.map_values(
            |f: DistributableFunctionView| match_arm_text(f),
        )[j] by {
            assert(arms.deep_view()[j] == arms@[j]@);
        }
        assert(arms.deep_view() =~~= dv.map_values(
            |f: DistributableFunctionView| match_arm_text(f),
        ));
    }
    let mut r =
        "fn redirect_to_function(d: Distributable, function_name: &str) -> ReverseDistributable {\n".to_owned();
    let joined_adapters = join_strings(&adapters, "\n");
    r.append(joined_adapters.as_str());
    r.append("\n");
    r.append("println!(\"[RedirectToFunction] function {}\", &function_name);\n");
    let mw = build_middleware_function(middleware);
    r.append(mw.as_str());
    r.append("let result = match d {\n");
    let joined_arms = join_strings(&arms, ",\n");
    r.append(joined_arms.as_str());
    r.append("\n};\n");
    r.append("println!(\"[RedirectToFunction] Returning from {}\", &function_name);\n");
    r.append("return result\n}\n");
    proof {
        assert(r@ =~~= redirect_function_text_of(dv, middleware.deep_view()));
    }
    r
}

/// Why the build trigger emits nothing.
#[derive(PartialEq, Eq, Structural, Debug)]
pub enum BuildError {
    /// Registration was not yet closed by `finalize_registration`.
    RegistrationOpen,
}

/// The single build trigger: reads the final registry state once and emits
/// the dispatcher followed by both unions. Emits only after registration is
/// closed, so the snapshot it reads is settled.
pub fn build(reg: &Registry) -> (r: Result<String, BuildError>)
    ensures
        r is Ok <==> reg@.finalized,
        r is Ok ==> r->Ok_0@ == generated_output_text_of(reg@.callables, reg@.middleware),
        r is Err ==> r->Err_0 == BuildError::RegistrationOpen,
{
    if !reg.is_finalized() {
        return Result::Err(BuildError::RegistrationOpen);
    }
    let (callables, middleware) = reg.snapshot();
    let mut r = build_redirect_function(callables, middleware);
    let p = crate::protocol::synthesize_protocol(callables);
    let requests = crate::protocol::request_union_text(&p);
    r.append(requests.as_str());
    let results = crate::protocol::result_union_text(&p);
    r.append(results.as_str());
    proof {
        assert(r@ =~~= generated_output_text_of(reg@.callables, reg@.middleware));
    }
    Result::Ok(r)
}

/// Exhaustiveness of the generated match: the dispatcher's match table holds
/// exactly one arm per Request variant, in the same order, and the i-th arm
/// destructures the variant named as the i-th Request variant and calls the
/// i-th adapter with the same payload.
pub proof fn lemma_match_exhaustive(callables: Seq<DistributableFunctionView>, i: int)
    requires
        0 <= i < callables.len(),
    ensures
        callables.map_values(|f: DistributableFunctionView| match_arm_text(f)).len()
            == protocol_of(callables).requests.len(),
        callables.map_values(|f: DistributableFunctionView| match_arm_text(f))[i]
            == "Distributable::"@ + protocol_of(callables).requests[i].name + tuple_text(
            name_texts(callables[i].arguments),
        ) + " => internal_"@ + callables[i].name + tuple_text(name_texts(callables[i].arguments)),
{
    assert(callables.map_values(|f: DistributableFunctionView| match_arm_text(f))[i]
        == match_arm_text(callables[i]));
    assert(protocol_of(callables).requests[i].name == pascal_of(callables[i].name));
}

/// Determinism: two synthesis runs over an identical snapshot produce
/// structurally identical unions and an identical dispatcher and output
/// text.
pub proof fn lemma_synthesis_deterministic(
    c1: Seq<DistributableFunctionView>,
    m1: Seq<DistributableFunctionView>,
    c2: Seq<DistributableFunctionView>,
    m2: Seq<DistributableFunctionView>,
)
    requires
        c1 == c2,
        m1 == m2,
    ensures
        protocol_of(c1) == protocol_of(c2),
        redirect_function_text_of(c1, m1) == redirect_function_text_of(c2, m2),
        generated_output_text_of(c1, m1) == generated_output_text_of(c2, m2),
{
}

} // verus!
