use vstd::prelude::*;

verus! {

/// Bit pattern (IEEE-754 binary64) of the Jaro similarity of two texts.
///
/// Jaro scores lie in `[0, 1]`, and for non-negative doubles the unsigned
/// order of the bit patterns is the numeric order, so the patterns can be
/// compared as plain integers.
pub uninterp spec fn jaro_bits(a: Seq<char>, b: Seq<char>) -> u64;

/// Relies on `strsim::jaro`: the score depends on the characters of the two
/// texts alone. The score is handed over as its bit pattern.
#[verifier::external_body]
pub(crate) fn jaro_similarity_bits(a: &str, b: &str) -> (r: u64)
    ensures
        r == jaro_bits(a@, b@),
{
    strsim::jaro(a, b).to_bits()
}

} // verus!
