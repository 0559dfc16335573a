//! The decimal-text bridge between the engine's numeric stack and the host's.
//!
//! The two arbitrary-precision stacks are not binary-compatible, so numbers
//! cross the boundary as decimal text.  The host side normalises that text by
//! parsing it into its own arbitrary-precision types and rendering it back:
//! the rendered form is canonical, and renormalising it gives the same text
//! again, which is what makes conversion a faithful round trip.

use vstd::prelude::*;

verus! {

/// What normalising integer text through num_bigint returns: `None` when the
/// text does not parse as a decimal integer, otherwise the canonical decimal
/// rendering of the value it denotes.
pub uninterp spec fn int_canon(s: Seq<char>) -> Option<Seq<char>>;

/// What normalising rational text through num_rational returns: `None` when
/// the text does not parse as `numer/denom` (or plain integer) decimal text
/// with a nonzero denominator, otherwise the canonical rendering: reduced,
/// denominator positive and omitted when it is one.
pub uninterp spec fn rat_canon(s: Seq<char>) -> Option<Seq<char>>;

/// Relies on num_bigint::BigInt: `FromStr` parses optionally signed decimal
/// text, `Display` renders the value back as canonical decimal text, and
/// parsing a rendered form yields the same value again, so rendered forms are
/// fixed points of normalisation.
#[verifier::external_body]
pub(crate) fn int_normalize(s: &str) -> (r: Option<String>)
    ensures
        (r is Some) == (int_canon(s@) is Some),
        r matches Some(t) ==> int_canon(s@) == Some(t@) && int_canon(t@) == Some(t@),
{
    s.parse::<num_bigint::BigInt>().ok().map(|v| v.to_string())
}

/// Relies on num_rational::BigRational: `FromStr` parses `numer/denom` or
/// plain integer decimal text, rejecting a zero denominator, and reduces;
/// `Display` renders the reduced value back (omitting a denominator of one),
/// and parsing a rendered form yields the same value again, so rendered forms
/// are fixed points of normalisation.
#[verifier::external_body]
pub(crate) fn rat_normalize(s: &str) -> (r: Option<String>)
    ensures
        (r is Some) == (rat_canon(s@) is Some),
        r matches Some(t) ==> rat_canon(s@) == Some(t@) && rat_canon(t@) == Some(t@),
{
    s.parse::<num_rational::BigRational>().ok().map(|v| v.to_string())
}

} // verus!
