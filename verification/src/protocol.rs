use vstd::prelude::*;

use crate::descriptor::{type_texts, tuple_text, DistributableFunction, DistributableFunctionView};
use crate::names::pascal_of;
use crate::registry::callables_distinct;
use crate::text::{join_strings, join_with};

verus! {

/// One Request union variant: the derived protocol variant name and the
/// payload made of the callable's argument types in declared order.
pub struct VariantDef {
    pub name: String,
    pub payload: Vec<String>,
}

/// Mathematical model of a `VariantDef`.
#[verifier::ext_equal]
pub struct VariantDefView {
    pub name: Seq<char>,
    pub payload: Seq<Seq<char>>,
}

impl View for VariantDef {
    type V = VariantDefView;

    open spec fn view(&self) -> VariantDefView {
        VariantDefView { name: self.name@, payload: self.payload.deep_view() }
    }
}

impl DeepView for VariantDef {
    type V = VariantDefView;

    open spec fn deep_view(&self) -> VariantDefView {
        self.view()
    }
}

/// One Result union variant: the derived protocol variant name and the single
/// payload made of the callable's return type.
pub struct ResultVariantDef {
    pub name: String,
    pub payload: String,
}

/// Mathematical model of a `ResultVariantDef`.
#[verifier::ext_equal]
pub struct ResultVariantDefView {
    pub name: Seq<char>,
    pub payload: Seq<char>,
}

impl View for ResultVariantDef {
    type V = ResultVariantDefView;

    open spec fn view(&self) -> ResultVariantDefView {
        ResultVariantDefView { name: self.name@, payload: self.payload@ }
    }
}

impl DeepView for ResultVariantDef {
    type V = ResultVariantDefView;

    open spec fn deep_view(&self) -> ResultVariantDefView {
        self.view()
    }
}

/// The synthesized protocol: the Request union's variants and the Result
/// union's variants, one of each per registered callable, in registration
/// order.
pub struct Protocol {
    pub requests: Vec<VariantDef>,
    pub results: Vec<ResultVariantDef>,
}

/// Mathematical model of a `Protocol`.
#[verifier::ext_equal]
pub struct ProtocolView {
    pub requests: Seq<VariantDefView>,
    pub results: Seq<ResultVariantDefView>,
}

impl View for Protocol {
    type V = ProtocolView;

    open spec fn view(&self) -> ProtocolView {
        ProtocolView { requests: self.requests.deep_view(), results: self.results.deep_view() }
    }
}

/// The Request variant that one callable contributes.
pub open spec fn request_variant_of(f: DistributableFunctionView) -> VariantDefView {
    VariantDefView { name: pascal_of(f.name), payload: type_texts(f.arguments) }
}

/// The Result variant that one callable contributes.
pub open spec fn result_variant_of(f: DistributableFunctionView) -> ResultVariantDefView {
    ResultVariantDefView { name: pascal_of(f.name), payload: f.return_type }
}

/// The whole protocol that a callable snapshot yields: one Request variant
/// and one Result variant per callable, in registration order.
pub open spec fn protocol_of(callables: Seq<DistributableFunctionView>) -> ProtocolView {
    ProtocolView {
        requests: callables.map_values(|f: DistributableFunctionView| request_variant_of(f)),
        results: callables.map_values(|f: DistributableFunctionView| result_variant_of(f)),
    }
}

/// Projects the callable snapshot into the two unions' variant lists.
/// Synthesis reads the snapshot once and writes nothing back, so callables
/// registered afterwards have no effect on its output.
pub fn synthesize_protocol(callables: &Vec<DistributableFunction>) -> (p: Protocol)
    ensures
        p@ == protocol_of(callables.deep_view()),
{
    let mut requests: Vec<VariantDef> = Vec::new();
    let mut results: Vec<ResultVariantDef> = Vec::new();
    let mut i: usize = 0;
    while i < callables.len()
        invariant
            i <= callables.len(),
            requests@.len() == i,
            results@.len() == i,
            forall|j: int|
                0 <= j < i ==> requests@[j]@ == request_variant_of(callables.deep_view()[j]),
            forall|j: int|
                0 <= j < i ==> results@[j]@ == result_variant_of(callables.deep_view()[j]),
        decreases callables.len() - i,
    {
        proof {
            assert(callables.deep_view()[i as int] == callables@[i as int].deep_view());
        }
        let name = callables[i].get_pascal_name();
        let payload = callables[i].get_arg_type_list();
        requests.push(VariantDef { name, payload });
        let name = callables[i].get_pascal_name();
        let payload = callables[i].get_return_type();
        results.push(ResultVariantDef { name, payload });
        i = i + 1;
    }
    let p = Protocol { requests, results };
    proof {
        let dv = callables.deep_view();
        assert forall|j: int| 0 <= j < dv.len() implies p@.requests[j] == protocol_of(
            dv,
        ).requests[j] by {
            assert(p@.requests[j] == p.requests@[j]@);
        }
        assert forall|j: int| 0 <= j < dv.len() implies p@.results[j] == protocol_of(
            dv,
        ).results[j] by {
            assert(p@.results[j] == p.results@[j]@);
        }
        assert(p@.requests =~~= protocol_of(dv).requests);
        assert(p@.results =~~= protocol_of(dv).results);
        assert(p@ =~~= protocol_of(dv));
    }
    p
}

/// The serialization capability marker attached to both generated unions for
/// the external serialization collaborator.
pub open spec fn serialization_marker_text() -> Seq<char> {
    "#[derive(serde::Serialize, serde::Deserialize)]\n"@
}

/// The text of one Request variant: the variant name with its payload types
/// as a tuple.
pub open spec fn request_variant_text(v: VariantDefView) -> Seq<char> {
    v.name + tuple_text(v.payload)
}

/// The text of one Result variant: the variant name wrapping its single
/// return-type payload.
pub open spec fn result_variant_text(v: ResultVariantDefView) -> Seq<char> {
    v.name + seq!['('] + v.payload + seq![')']
}

/// The complete text of the Request union: the serialization marker, then a
/// closed enum with one variant per callable, in registration order.
pub open spec fn request_union_text_of(requests: Seq<VariantDefView>) -> Seq<char> {
    serialization_marker_text() + "enum Distributable {\n"@ + join_with(
        requests.map_values(|v: VariantDefView| request_variant_text(v)),
        ",\n"@,
    ) + "\n}\n"@
}

/// The complete text of the Result union: the serialization marker, then a
/// closed enum with one variant per callable, in registration order.
pub open spec fn result_union_text_of(results: Seq<ResultVariantDefView>) -> Seq<char> {
    serialization_marker_text() + "enum ReverseDistributable {\n"@ + join_with(
        results.map_values(|v: ResultVariantDefView| result_variant_text(v)),
        ",\n"@,
    ) + "\n}\n"@
}

/// Renders the Request union's declaration text.
pub fn request_union_text(p: &Protocol) -> (r: String)
    ensures
        r@ == request_union_text_of(p@.requests),
{
    let mut parts: Vec<String> = Vec::new();
    let mut i: usize = 0;
    while i < p.requests.len()
        invariant
            i <= p.requests.len(),
            parts@.len() == i,
            forall|j: int| 0 <= j < i ==> parts@[j]@ == request_variant_text(p@.requests[j]),
        decreases p.requests.len() - i,
    {
        proof {
            assert(p@.requests[i as int] == p.requests@[i as int]@);
        }
        let mut t = p.requests[i].name.clone();
        let tup = {
            let joined = join_strings(&p.requests[i].payload, ",");
            proof {
                reveal_strlit(",");
                assert(","@ =~~= seq![',']);
            }
            crate::descriptor::parenthesize(joined)
        };
        t.append(tup.as_str());
        parts.push(t);
        i = i + 1;
    }
    proof {
        assert forall|j: int| 0 <= j < parts@.len() implies parts.deep_view()[j] == p@.requests.map_values(
            |v: VariantDefView| request_variant_text(v),
        )[j] by {
            assert(parts.deep_view()[j] == parts@[j]@);
        }
        assert(parts.deep_view() =~~= p@.requests.map_values(
            |v: VariantDefView| request_variant_text(v),
        ));
    }
    let body = join_strings(&parts, ",\n");
    let mut r = "#[derive(serde::Serialize, serde::Deserialize)]\n".to_owned();
    r.append("enum Distributable {\n");
    r.append(body.as_str());
    r.append("\n}\n");
    proof {
        assert(r@ =~~= request_union_text_of(p@.requests));
    }
    r
}

/// Renders the Result union's declaration text.
pub fn result_union_text(p: &Protocol) -> (r: String)
    ensures
        r@ == result_union_text_of(p@.results),
{
    let mut parts: Vec<String> = Vec::new();
    let mut i: usize = 0;
    while i < p.results.len()
        invariant
            i <= p.results.len(),
            parts@.len() == i,
            forall|j: int| 0 <= j < i ==> parts@[j]@ == result_variant_text(p@.results[j]),
        decreases p.results.len() - i,
    {
        proof {
            assert(p@.results[i as int] == p.results@[i as int]@);
        }
        let mut t = p.results[i].name.clone();
        let tup = crate::descriptor::parenthesize(p.results[i].payload.clone());
        t.append(tup.as_str());
        parts.push(t);
        i = i + 1;
    }
    proof {
        assert forall|j: int| 0 <= j < parts@.len() implies parts.deep_view()[j] == p@.results.map_values(
            |v: ResultVariantDefView| result_variant_text(v),
        )[j] by {
            assert(parts.deep_view()[j] == parts@[j]@);
        }
        assert(parts.deep_view() =~~= p@.results.map_values(
            |v: ResultVariantDefView| result_variant_text(v),
        ));
    }
    let body = join_strings(&parts, ",\n");
    let mut r = "#[derive(serde::Serialize, serde::Deserialize)]\n".to_owned();
    r.append("enum ReverseDistributable {\n");
    r.append(body.as_str());
    r.append("\n}\n");
    proof {
        assert(r@ =~~= result_union_text_of(p@.results));
    }
    r
}

/// For every registered callable the Request union holds exactly one variant
/// whose payload is that callable's argument types in declared order, and the
/// Result union holds exactly one variant whose payload is that callable's
/// return type: the variant at the callable's own position matches it, and no
/// other variant carries its name.
pub proof fn lemma_variant_correspondence(
    callables: Seq<DistributableFunctionView>,
    p: ProtocolView,
    i: int,
)
    requires
        callables_distinct(callables),
        p == protocol_of(callables),
        0 <= i < callables.len(),
    ensures
        p.requests.len() == callables.len(),
        p.results.len() == callables.len(),
        p.requests[i].name == pascal_of(callables[i].name),
        p.requests[i].payload == type_texts(callables[i].arguments),
        p.requests[i].payload.len() == callables[i].arguments.len(),
        p.results[i].name == pascal_of(callables[i].name),
        p.results[i].payload == callables[i].return_type,
        forall|j: int|
            0 <= j < p.requests.len() && j != i ==> p.requests[j].name != p.requests[i].name,
        forall|j: int|
            0 <= j < p.results.len() && j != i ==> p.results[j].name != p.results[i].name,
{
    assert forall|j: int|
        0 <= j < p.requests.len() && j != i implies p.requests[j].name != p.requests[i].name by {
        assert(p.requests[j].name == pascal_of(callables[j].name));
        if j < i {
            assert(pascal_of(callables[j].name) != pascal_of(callables[i].name));
        } else {
            assert(pascal_of(callables[i].name) != pascal_of(callables[j].name));
        }
    }
    assert forall|j: int|
        0 <= j < p.results.len() && j != i implies p.results[j].name != p.results[i].name by {
        assert(p.results[j].name == pascal_of(callables[j].name));
        if j < i {
            assert(pascal_of(callables[j].name) != pascal_of(callables[i].name));
        } else {
            assert(pascal_of(callables[i].name) != pascal_of(callables[j].name));
        }
    }
}

} // verus!
