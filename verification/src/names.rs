use vstd::prelude::*;

verus! {

/// The Pascal-case form of an identifier: the name that convert_case gives
/// back for it, word-capitalized with every separator removed.
pub uninterp spec fn pascal_of(s: Seq<char>) -> Seq<char>;

/// Relies on convert_case's `Casing::to_case` with `Case::Pascal`: the result
/// depends on the characters of the input alone.
#[verifier::external_body]
pub(crate) fn pascal_case(s: &String) -> (r: String)
    ensures
        r@ == pascal_of(s@),
{
    convert_case::Casing::to_case(s, convert_case::Case::Pascal)
}

} // verus!
