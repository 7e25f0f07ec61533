use vstd::prelude::*;

use crate::descriptor::{
    all_params_typed, descriptor_of, Argument, Declaration, DeclarationView,
    DistributableFunction, DistributableFunctionView, ExtractError, Param,
};

verus! {

/// syn's structured form of one parsed function declaration; opaque here,
/// read through the trusted accessors below.
#[verifier::external_type_specification]
#[verifier::external_body]
pub struct ExItemFn(syn::ItemFn);

/// What the declaration parser yields for a given text: the structured
/// declaration when the text parses as a function, nothing otherwise. The
/// wrappers below pin proc-macro2's pure-Rust fallback backend before every
/// parse, so the result — token texts included — depends on the characters
/// of the text alone, not on the process or the host compiler.
pub uninterp spec fn decl_of(text: Seq<char>) -> Option<DeclarationView>;

/// Whether a text parses as a function whose parameters are all plain typed
/// identifier bindings: exactly then does it yield a descriptor.
pub open spec fn extractable(text: Seq<char>) -> bool {
    &&& decl_of(text) is Some
    &&& all_params_typed(parsed_decl(text).params)
}

/// The structured declaration that a parsing text yields.
pub open spec fn parsed_decl(text: Seq<char>) -> DeclarationView {
    decl_of(text)->Some_0
}

/// The descriptor that an extractable text yields.
pub open spec fn parsed_descriptor(text: Seq<char>) -> DistributableFunctionView {
    descriptor_of(parsed_decl(text))
}

/// Relies on syn's `parse_str::<ItemFn>` over proc-macro2's fallback
/// backend, pinned by `fallback::force`: turns raw declaration text into a
/// structured function declaration, succeeding exactly when the text parses
/// as a function.
#[verifier::external_body]
fn parse_item_fn(text: &str) -> (r: Option<syn::ItemFn>)
    ensures
        r is Some <==> decl_of(text@) is Some,
{
    proc_macro2::fallback::force();
    syn::parse_str::<syn::ItemFn>(text).ok()
}

/// Relies on syn's `parse_str::<ItemFn>` and `Signature`, proc-macro2's
/// `Ident` and quote's `ToTokens`, over proc-macro2's fallback backend,
/// pinned by `fallback::force` so lexing and rendering are functions of the
/// text alone: the parsed declaration's name, parameter count, declared
/// return type text if any, and complete token text.
#[verifier::external_body]
fn parsed_header(text: &str) -> (r: Option<(String, usize, Option<String>, String)>)
    ensures
        r is Some <==> decl_of(text@) is Some,
        r is Some ==> r->Some_0.0@ == parsed_decl(text@).name,
        r is Some ==> r->Some_0.1 as nat == parsed_decl(text@).params.len(),
        r is Some ==> (r->Some_0.2 is Some <==> parsed_decl(text@).output is Some),
        r is Some && r->Some_0.2 is Some ==> r->Some_0.2->Some_0@ == parsed_decl(text@).output->Some_0,
        r is Some ==> r->Some_0.3@ == parsed_decl(text@).raw,
{
    proc_macro2::fallback::force();
    match syn::parse_str::<syn::ItemFn>(text) {
        Err(_) => Option::None,
        Ok(f) => {
            let output = match &f.sig.output {
                syn::ReturnType::Default => Option::None,
                syn::ReturnType::Type(_, t) => Option::Some(quote::ToTokens::to_token_stream(t).to_string()),
            };
            let name = f.sig.ident.to_string();
            let count = f.sig.inputs.len();
            let raw = quote::ToTokens::to_token_stream(&f).to_string();
            Option::Some((name, count, output, raw))
        },
    }
}

/// Relies on syn's `parse_str::<ItemFn>`, `FnArg` and `Pat` shapes and
/// quote's `ToTokens`, over proc-macro2's fallback backend, pinned by
/// `fallback::force`: the parsed declaration's i-th parameter — the
/// identifier and type text of a plain typed binding, or which other shape
/// stood there; nothing past the last parameter or on text that does not
/// parse.
#[verifier::external_body]
fn parsed_param(text: &str, i: usize) -> (r: Option<Param>)
    ensures
        r is Some <==> (decl_of(text@) is Some && (i as nat) < parsed_decl(text@).params.len()),
        r is Some ==> r->Some_0@ == parsed_decl(text@).params[i as int],
{
    proc_macro2::fallback::force();
    let f = match syn::parse_str::<syn::ItemFn>(text) { Err(_) => return Option::None, Ok(f) => f };
    match f.sig.inputs.iter().nth(i) {
        Option::None => Option::None,
        Option::Some(syn::FnArg::Receiver(_)) => Option::Some(Param::Receiver),
        Option::Some(syn::FnArg::Typed(t)) => match &*t.pat {
            syn::Pat::Ident(p) => Option::Some(Param::Typed(Argument {
                name: p.ident.to_string(),
                ty: quote::ToTokens::to_token_stream(&t.ty).to_string(),
            })),
            _ => Option::Some(Param::Pattern),
        },
    }
}

/// Takes raw declaration text apart with the external parser and reads it
/// into the library's structured form: the name, each parameter in order,
/// the return type if one is declared, and the complete token text. Yields
/// exactly the parsed declaration, and nothing when the text does not parse
/// as a function.
pub(crate) fn parse_declaration(text: &str) -> (r: Option<Declaration>)
    ensures
        r is Some <==> decl_of(text@) is Some,
        r is Some ==> r->Some_0@ == parsed_decl(text@),
{
    let header = match parsed_header(text) {
        Option::None => {
            return Option::None;
        },
        Option::Some(h) => h,
    };
    let (name, n, output, raw) = header;
    let mut params: Vec<Param> = Vec::new();
    let mut i: usize = 0;
    while i < n
        invariant
            decl_of(text@) is Some,
            n as nat == parsed_decl(text@).params.len(),
            i <= n,
            params@.len() == i,
            forall|j: int| 0 <= j < i ==> params@[j]@ == parsed_decl(text@).params[j],
        decreases n - i,
    {
        match parsed_param(text, i) {
            Option::Some(p) => params.push(p),
            Option::None => {
                return Option::None;
            },
        }
        i = i + 1;
    }
    let d = Declaration { name, params, output, raw };
    proof {
        let dv = parsed_decl(text@);
        assert forall|j: int| 0 <= j < d.params@.len() implies d.params.deep_view()[j]
            == dv.params[j] by {
            assert(d.params.deep_view()[j] == d.params@[j]@);
        }
        assert(d@.params =~~= dv.params);
        if dv.output is Some {
            assert(d@.output == dv.output);
        } else {
            assert(d@.output == dv.output);
        }
        assert(d@ =~~= dv);
    }
    Option::Some(d)
}

impl DistributableFunction {
    /// The stored declaration text parsed back into syn's structured form,
    /// for a consumer that embeds it as tokens; present exactly when the
    /// stored text parses as a function.
    pub fn get_item_fn(&self) -> (r: Option<syn::ItemFn>)
        ensures
            r is Some <==> decl_of(self@.raw) is Some,
    {
        parse_item_fn(self.raw.as_str())
    }

    /// Builds a descriptor straight from raw declaration text: the external
    /// parser takes the text apart, and extraction does the rest. Text that
    /// is not a function is reported as malformed; a parameter that is not a
    /// plain typed identifier binding is rejected.
    pub fn new(text: &str) -> (r: Result<DistributableFunction, ExtractError>)
        ensures
            r is Ok <==> extractable(text@),
            r is Ok ==> r->Ok_0@ == parsed_descriptor(text@),
            decl_of(text@) is None ==> r is Err && r->Err_0 == ExtractError::Malformed,
            decl_of(text@) is Some && !all_params_typed(parsed_decl(text@).params) ==> r is Err,
            decl_of(text@) is Some && !all_params_typed(parsed_decl(text@).params) ==> r->Err_0
                == ExtractError::UnsupportedParameter,
    {
        let decl = match parse_declaration(text) {
            Option::None => {
                return Result::Err(ExtractError::Malformed);
            },
            Option::Some(d) => d,
        };
        DistributableFunction::from_declaration(&decl)
    }
}

} // verus!
