use vstd::prelude::*;

pub mod descriptor;
pub mod dispatcher;
pub mod model;
pub mod names;
pub mod parse;
pub mod protocol;
pub mod registry;
pub mod text;

verus! {

use crate::descriptor::{all_params_typed, DistributableFunction, ExtractError};
use crate::dispatcher::{callable_site_text, middleware_site_text};
use crate::parse::{decl_of, extractable, parsed_decl, parsed_descriptor};
use crate::registry::{has_name, has_variant_name, Registry, RegistryError};

/// Why an annotation registers nothing and emits no code.
#[derive(PartialEq, Eq, Structural, Debug)]
pub enum AttributeError {
    /// The annotated text could not be parsed as a function.
    Malformed,
    /// A parameter is not a plain typed identifier binding.
    UnsupportedParameter,
    /// The registry refused the descriptor.
    Rejected(RegistryError),
}

/// One middleware annotation: extracts a descriptor from the declaration
/// text, registers it as a hook to run on every dispatch, and renders the
/// text the annotation leaves at the declaration site — the declaration
/// itself, kept callable independent of the dispatch path.
pub fn middleware(reg: &mut Registry, text: &str) -> (r: Result<String, AttributeError>)
    requires
        old(reg).wf(),
    ensures
        final(reg).wf(),
        r is Err ==> final(reg)@ == old(reg)@,
        r is Ok <==> (extractable(text@) && !old(reg)@.finalized),
        r is Ok ==> final(reg)@.middleware == old(reg)@.middleware.push(parsed_descriptor(text@)),
        r is Ok ==> final(reg)@.callables == old(reg)@.callables,
        r is Ok ==> final(reg)@.finalized == old(reg)@.finalized,
        r is Ok ==> r->Ok_0@ == middleware_site_text(parsed_descriptor(text@)),
        decl_of(text@) is None ==> r->Err_0 == AttributeError::Malformed,
        decl_of(text@) is Some && !all_params_typed(parsed_decl(text@).params) ==> r->Err_0
            == AttributeError::UnsupportedParameter,
        extractable(text@) && old(reg)@.finalized ==> r->Err_0 == AttributeError::Rejected(
            RegistryError::RegistrationClosed,
        ),
{
    let d = match DistributableFunction::new(text) {
        Result::Err(ExtractError::Malformed) => {
            return Result::Err(AttributeError::Malformed);
        },
        Result::Err(ExtractError::UnsupportedParameter) => {
            return Result::Err(AttributeError::UnsupportedParameter);
        },
        Result::Ok(d) => d,
    };
    let site = d.get_middleware_site_text();
    match reg.register_middleware(d) {
        Result::Err(e) => Result::Err(AttributeError::Rejected(e)),
        Result::Ok(_) => Result::Ok(site),
    }
}

/// One callable annotation: extracts a descriptor from the declaration text,
/// registers it as a callable exposed across the boundary, and renders the
/// text left at the declaration site — the declaration itself, unchanged,
/// so the function stays directly callable while the synthesized dispatcher
/// reaches it through its adapter.
pub fn distributable(reg: &mut Registry, text: &str) -> (r: Result<String, AttributeError>)
    requires
        old(reg).wf(),
    ensures
        final(reg).wf(),
        r is Err ==> final(reg)@ == old(reg)@,
        r is Ok <==> (extractable(text@) && !old(reg)@.finalized && !has_name(
            old(reg)@.callables,
            parsed_descriptor(text@).name,
        ) && !has_variant_name(old(reg)@.callables, parsed_descriptor(text@).name)),
        r is Ok ==> final(reg)@.callables == old(reg)@.callables.push(parsed_descriptor(text@)),
        r is Ok ==> final(reg)@.middleware == old(reg)@.middleware,
        r is Ok ==> final(reg)@.finalized == old(reg)@.finalized,
        r is Ok ==> r->Ok_0@ == callable_site_text(parsed_descriptor(text@)),
        decl_of(text@) is None ==> r->Err_0 == AttributeError::Malformed,
        decl_of(text@) is Some && !all_params_typed(parsed_decl(text@).params) ==> r->Err_0
            == AttributeError::UnsupportedParameter,
        extractable(text@) && old(reg)@.finalized ==> r->Err_0 == AttributeError::Rejected(
            RegistryError::RegistrationClosed,
        ),
        extractable(text@) && !old(reg)@.finalized && has_name(
            old(reg)@.callables,
            parsed_descriptor(text@).name,
        ) ==> r->Err_0 == AttributeError::Rejected(RegistryError::DuplicateName),
        extractable(text@) && !old(reg)@.finalized && !has_name(
            old(reg)@.callables,
            parsed_descriptor(text@).name,
        ) && has_variant_name(old(reg)@.callables, parsed_descriptor(text@).name) ==> r->Err_0
            == AttributeError::Rejected(RegistryError::VariantNameCollision),
{
    let d = match DistributableFunction::new(text) {
        Result::Err(ExtractError::Malformed) => {
            return Result::Err(AttributeError::Malformed);
        },
        Result::Err(ExtractError::UnsupportedParameter) => {
            return Result::Err(AttributeError::UnsupportedParameter);
        },
        Result::Ok(d) => d,
    };
    let site = d.get_raw();
    match reg.register_callable(d) {
        Result::Err(e) => Result::Err(AttributeError::Rejected(e)),
        Result::Ok(_) => Result::Ok(site),
    }
}

} // verus!
