//! Text helpers shared by the credential value types and the repository:
//! whitespace trimming and ASCII case normalisation, with spec-level
//! counterparts that the library's contracts are written over.
use vstd::prelude::*;

verus! {

/// The result of Unicode-whitespace trimming, named so that contracts can
/// speak of it; `str::trim` is deterministic in its input alone.
pub uninterp spec fn trim_of(s: Seq<char>) -> Seq<char>;

/// Relies on str::trim: returns the string without leading and trailing
/// whitespace — so never longer than its input — and the result depends on
/// the characters alone.
#[verifier::external_body]
pub fn trim_str(s: &str) -> (r: &str)
    ensures
        r@ == trim_of(s@),
        r@.len() <= s@.len(),
{
    s.trim()
}

/// The ASCII lower-case image of a single character: ASCII upper-case
/// letters move down by the case distance, everything else is unchanged.
pub open spec fn lower_char(c: char) -> char {
    if 'A' <= c && c <= 'Z' {
        ((c as u8) + 32) as char
    } else {
        c
    }
}

/// The character-wise ASCII lower-case image of a string.
pub open spec fn lower_seq(s: Seq<char>) -> Seq<char> {
    s.map_values(|c: char| lower_char(c))
}

/// Relies on str::to_ascii_lowercase: every character is mapped to its
/// ASCII lower-case equivalent and non-ASCII characters are unchanged.
#[verifier::external_body]
pub fn to_ascii_lowercase(s: &str) -> (r: String)
    ensures
        r@ == lower_seq(s@),
{
    s.to_ascii_lowercase()
}

/// Lower-casing is idempotent: a string already through `lower_seq` is fixed
/// by a second application.
pub proof fn lemma_lower_seq_idempotent(s: Seq<char>)
    ensures
        lower_seq(lower_seq(s)) == lower_seq(s),
{
    assert(lower_seq(lower_seq(s)) =~= lower_seq(s));
}

} // verus!
