//! Naming conventions, computed by the `convert_case` crate.
use vstd::prelude::*;
use convert_case::{Case, Casing};

verus! {

/// The lower-camel-case form of an identifier, as `convert_case` computes it.
pub uninterp spec fn camel_of(s: Seq<char>) -> Seq<char>;

/// The Pascal-case form of an identifier, as `convert_case` computes it.
pub uninterp spec fn pascal_of(s: Seq<char>) -> Seq<char>;

/// Relies on `convert_case::Casing::to_case` with `Case::Camel`: `s` is split
/// into words at the crate's default boundaries (underscores, hyphens, spaces,
/// lower-to-upper case changes, letter-digit changes, the end of an acronym),
/// and the words are joined with the first lowercased and each later one
/// capitalized. The result depends on `s` alone.
#[verifier::external_body]
pub(crate) fn to_camel_case(s: &str) -> (r: String)
    ensures
        r@ == camel_of(s@),
{
    s.to_case(Case::Camel)
}

/// Relies on `convert_case::Casing::to_case` with `Case::Pascal`: `s` is split
/// into words at the same default boundaries, and the words are joined, each
/// capitalized. The result depends on `s` alone.
#[verifier::external_body]
pub(crate) fn to_pascal_case(s: &str) -> (r: String)
    ensures
        r@ == pascal_of(s@),
{
    s.to_case(Case::Pascal)
}

} // verus!
