use vstd::prelude::*;

verus! {

/// The Unicode lowercasing performed by `str::to_lowercase`, given a name
/// so that contracts can speak of it; it depends on the characters alone.
pub uninterp spec fn lower_of(s: Seq<char>) -> Seq<char>;

/// Relies on `str::to_lowercase`: lowercases a string, and the result is
/// a function of the input characters alone.
#[verifier::external_body]
pub(crate) fn to_lowercase(s: &str) -> (r: String)
    ensures
        r@ == lower_of(s@),
{
    s.to_lowercase()
}

} // verus!
