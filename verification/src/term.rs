//! The engine-facing term shape and the two conversion directions.
//!
//! An engine term reaches this layer as plain data: numeric payloads as the
//! decimal text the engine renders, floats as a bit pattern beside their
//! rendered text, and every term kind this layer does not model as its debug
//! rendering.  Conversion to the host value model is total over well-shaped
//! numerics and degrades any unmodelled kind to a string, never silently
//! dropping it; conversion back is the structural inverse, bridging numerics
//! through decimal text.

use vstd::prelude::*;

verus! {

use crate::float_order::{canon_bits, is_nan_bits};
use crate::numtext::{int_canon, int_normalize, rat_canon, rat_normalize};
use crate::value::{float_model, lemma_value_model_seq, value_model, value_model_seq, value_wf,
    value_wf_seq, PyTerm, ValueModel};

/// An engine term, as plain data.
#[derive(Debug, PartialEq)]
pub enum EngineTerm {
    /// An arbitrary precision integer, as the decimal text the engine renders.
    Integer { text: String },
    /// An arbitrary precision rational, as the engine's `numer/denom` text.
    Rational { text: String },
    /// A float: its bit pattern and its rendered text.
    Float { bits: u64, text: String },
    /// An atom.
    Atom { text: String },
    /// A character-string term, distinct from an atom with the same text.
    String { text: String },
    /// A proper list.
    List { items: Vec<EngineTerm> },
    /// A compound term.
    Compound { functor: String, args: Vec<EngineTerm> },
    /// An unbound variable, under its engine-assigned display name.
    Var { name: String },
    /// Any other engine term kind, degraded to its textual rendering.
    Other { rendered: String },
}

/// The mathematical model of an `EngineTerm`.
pub enum TermModel {
    Integer { text: Seq<char> },
    Rational { text: Seq<char> },
    Float { bits: u64, text: Seq<char> },
    Atom { text: Seq<char> },
    Str { text: Seq<char> },
    List { items: Seq<TermModel> },
    Compound { functor: Seq<char>, args: Seq<TermModel> },
    Var { name: Seq<char> },
    Other { rendered: Seq<char> },
}

/// The model of an engine term.
pub open spec fn term_model(t: EngineTerm) -> TermModel
    decreases t,
{
    match t {
        EngineTerm::Integer { text } => TermModel::Integer { text: text@ },
        EngineTerm::Rational { text } => TermModel::Rational { text: text@ },
        EngineTerm::Float { bits, text } => TermModel::Float { bits, text: text@ },
        EngineTerm::Atom { text } => TermModel::Atom { text: text@ },
        EngineTerm::String { text } => TermModel::Str { text: text@ },
        EngineTerm::List { items } => TermModel::List { items: term_model_seq(items@) },
        EngineTerm::Compound { functor, args } => TermModel::Compound {
            functor: functor@,
            args: term_model_seq(args@),
        },
        EngineTerm::Var { name } => TermModel::Var { name: name@ },
        EngineTerm::Other { rendered } => TermModel::Other { rendered: rendered@ },
    }
}

/// The models of a sequence of engine terms, in order.
pub open spec fn term_model_seq(s: Seq<EngineTerm>) -> Seq<TermModel>
    decreases s,
{
    if s.len() == 0 {
        Seq::empty()
    } else {
        seq![term_model(s[0])] + term_model_seq(s.drop_first())
    }
}

/// Whether every numeric payload in a term parses: exactly the terms whose
/// conversion to a value succeeds.  The engine's own renderings always
/// satisfy it; a term built with text the host parser rejects is the numeric
/// round-trip defect.
pub open spec fn term_ok(m: TermModel) -> bool
    decreases m,
{
    match m {
        TermModel::Integer { text } => int_canon(text) is Some,
        TermModel::Rational { text } => rat_canon(text) is Some,
        TermModel::List { items } => term_ok_seq(items),
        TermModel::Compound { functor, args } => term_ok_seq(args),
        _ => true,
    }
}

/// `term_ok` over every model in a sequence.
pub open spec fn term_ok_seq(s: Seq<TermModel>) -> bool
    decreases s,
{
    forall|i: int| 0 <= i < s.len() ==> term_ok(#[trigger] s[i])
}

/// What converting an engine term yields: numerics normalised to canonical
/// text, floats canonicalised, atoms and strings kept distinct, lists and
/// compounds converted element by element in order, and any other kind
/// degraded to a string holding its rendering.
pub open spec fn to_value_spec(m: TermModel) -> ValueModel
    decreases m,
{
    match m {
        TermModel::Integer { text } => ValueModel::Integer { text: int_canon(text)->0 },
        TermModel::Rational { text } => ValueModel::Rational { text: rat_canon(text)->0 },
        TermModel::Float { bits, text } => float_model(bits, text),
        TermModel::Atom { text } => ValueModel::Atom { text },
        TermModel::Str { text } => ValueModel::Str { text },
        TermModel::List { items } => ValueModel::List { items: to_value_spec_seq(items) },
        TermModel::Compound { functor, args } => ValueModel::Compound {
            functor,
            args: to_value_spec_seq(args),
        },
        TermModel::Var { name } => ValueModel::Var { name },
        TermModel::Other { rendered } => ValueModel::Str { text: rendered },
    }
}

/// `to_value_spec` over every model in a sequence, in order.
pub open spec fn to_value_spec_seq(s: Seq<TermModel>) -> Seq<ValueModel>
    decreases s,
{
    if s.len() == 0 {
        Seq::empty()
    } else {
        seq![to_value_spec(s[0])] + to_value_spec_seq(s.drop_first())
    }
}

/// Whether every numeric payload in a value parses, so that conversion to an
/// engine term succeeds.
pub open spec fn value_num_ok(m: ValueModel) -> bool
    decreases m,
{
    match m {
        ValueModel::Integer { text } => int_canon(text) is Some,
        ValueModel::Rational { text } => rat_canon(text) is Some,
        ValueModel::List { items } => value_num_ok_seq(items),
        ValueModel::Compound { functor, args } => value_num_ok_seq(args),
        _ => true,
    }
}

/// `value_num_ok` over every model in a sequence.
pub open spec fn value_num_ok_seq(s: Seq<ValueModel>) -> bool
    decreases s,
{
    forall|i: int| 0 <= i < s.len() ==> value_num_ok(#[trigger] s[i])
}

/// What converting a value to an engine term yields: the structural image of
/// the value, with numeric payloads renormalised through the host's own
/// formatter on the way (the decimal-text bridge between the two numeric
/// stacks).
pub open spec fn to_term_spec(m: ValueModel) -> TermModel
    decreases m,
{
    match m {
        ValueModel::Integer { text } => TermModel::Integer { text: int_canon(text)->0 },
        ValueModel::Rational { text } => TermModel::Rational { text: rat_canon(text)->0 },
        ValueModel::Float { bits, text } => TermModel::Float { bits, text },
        ValueModel::Atom { text } => TermModel::Atom { text },
        ValueModel::Str { text } => TermModel::Str { text },
        ValueModel::List { items } => TermModel::List { items: to_term_spec_seq(items) },
        ValueModel::Compound { functor, args } => TermModel::Compound {
            functor,
            args: to_term_spec_seq(args),
        },
        ValueModel::Var { name } => TermModel::Var { name },
    }
}

/// `to_term_spec` over every model in a sequence, in order.
pub open spec fn to_term_spec_seq(s: Seq<ValueModel>) -> Seq<TermModel>
    decreases s,
{
    if s.len() == 0 {
        Seq::empty()
    } else {
        seq![to_term_spec(s[0])] + to_term_spec_seq(s.drop_first())
    }
}

/// Converts an engine term to a host value.  `None` exactly when a numeric
/// payload does not parse, which signals the numeric round-trip defect; on
/// success the result is the specified conversion, and it is well formed.
pub fn to_value(t: &EngineTerm) -> (r: Option<PyTerm>)
    ensures
        (r is Some) == term_ok(term_model(*t)),
        r matches Some(v) ==> value_model(v) == to_value_spec(term_model(*t)) && value_wf(
            value_model(v),
        ),
    decreases *t,
{
    match t {
        EngineTerm::Integer { text } => match int_normalize(text.as_str()) {
            Some(c) => Some(PyTerm::Integer { value: c }),
            None => None,
        },
        EngineTerm::Rational { text } => match rat_normalize(text.as_str()) {
            Some(c) => Some(PyTerm::Rational { value: c }),
            None => None,
        },
        EngineTerm::Float { bits, text } => Some(PyTerm::float_from_bits(*bits, text.clone())),
        EngineTerm::Atom { text } => Some(PyTerm::Atom { value: text.clone() }),
        EngineTerm::String { text } => Some(PyTerm::String { value: text.clone() }),
        EngineTerm::List { items } => match to_value_vec(items) {
            Some(vs) => Some(PyTerm::List { values: vs }),
            None => None,
        },
        EngineTerm::Compound { functor, args } => match to_value_vec(args) {
            Some(vs) => Some(PyTerm::Compound { functor: functor.clone(), args: vs }),
            None => None,
        },
        EngineTerm::Var { name } => Some(PyTerm::Var { name: name.clone() }),
        EngineTerm::Other { rendered } => Some(PyTerm::String { value: rendered.clone() }),
    }
}

/// Converts a sequence of engine terms element by element, in order; `None`
/// as soon as any element has the numeric round-trip defect.
fn to_value_vec(ts: &Vec<EngineTerm>) -> (r: Option<Vec<PyTerm>>)
    ensures
        (r is Some) == term_ok_seq(term_model_seq(ts@)),
        r matches Some(vs) ==> value_model_seq(vs@) == to_value_spec_seq(term_model_seq(ts@))
            && value_wf_seq(value_model_seq(vs@)),
    decreases ts@,
{
    let ghost whole = term_model_seq(ts@);
    proof {
        lemma_term_model_seq(ts@);
        lemma_to_value_spec_seq(whole);
    }
    let mut out: Vec<PyTerm> = Vec::new();
    let mut i: usize = 0;
    while i < ts.len()
        invariant
            i <= ts.len(),
            whole == term_model_seq(ts@),
            whole.len() == ts@.len(),
            forall|j: int| 0 <= j < ts@.len() ==> whole[j] == term_model(ts@[j]),
            out@.len() == i,
            forall|j: int| 0 <= j < i ==> value_model(#[trigger] out@[j]) == to_value_spec(
                whole[j],
            ) && value_wf(value_model(out@[j])),
            forall|j: int| 0 <= j < i ==> term_ok(#[trigger] whole[j]),
        decreases ts@.len() - i,
    {
        proof {
            assert(decreases_to!(ts@ => ts@[i as int]));
        }
        match to_value(&ts[i]) {
            Some(v) => {
                out.push(v);
            },
            None => {
                proof {
                    assert(!term_ok(whole[i as int]));
                }
                return None;
            },
        }
        i = i + 1;
    }
    proof {
        lemma_value_model_seq(out@);
        assert(value_model_seq(out@) =~= to_value_spec_seq(whole));
        assert forall|j: int| 0 <= j < whole.len() implies term_ok(#[trigger] whole[j]) by {}
    }
    Some(out)
}

/// The models of a sequence line up with the models of its elements.
pub proof fn lemma_term_model_seq(s: Seq<EngineTerm>)
    ensures
        term_model_seq(s).len() == s.len(),
        forall|i: int| 0 <= i < s.len() ==> term_model_seq(s)[i] == term_model(s[i]),
    decreases s,
{
    if s.len() > 0 {
        lemma_term_model_seq(s.drop_first());
    }
}

/// The converted models of a sequence line up with its elements' conversions.
pub proof fn lemma_to_value_spec_seq(s: Seq<TermModel>)
    ensures
        to_value_spec_seq(s).len() == s.len(),
        forall|i: int| 0 <= i < s.len() ==> to_value_spec_seq(s)[i] == to_value_spec(s[i]),
    decreases s,
{
    if s.len() > 0 {
        lemma_to_value_spec_seq(s.drop_first());
    }
}

/// The structural images of a sequence line up with its elements' images.
pub proof fn lemma_to_term_spec_seq(s: Seq<ValueModel>)
    ensures
        to_term_spec_seq(s).len() == s.len(),
        forall|i: int| 0 <= i < s.len() ==> to_term_spec_seq(s)[i] == to_term_spec(s[i]),
    decreases s,
{
    if s.len() > 0 {
        lemma_to_term_spec_seq(s.drop_first());
    }
}

/// Round trip for exact shapes: converting a well-formed value to an engine
/// term and back yields the same value, structurally.  Every numeric payload
/// survives as the identical digit sequence, atoms and strings stay distinct,
/// and lists and compounds round-trip element by element.
pub proof fn lemma_round_trip(m: ValueModel)
    requires
        value_wf(m),
    ensures
        value_num_ok(m),
        term_ok(to_term_spec(m)),
        to_value_spec(to_term_spec(m)) == m,
    decreases m,
{
    match m {
        ValueModel::List { items } => {
            lemma_round_trip_seq(items);
        },
        ValueModel::Compound { functor, args } => {
            lemma_round_trip_seq(args);
        },
        _ => {},
    }
}

/// Round trip over every model in a sequence, preserving order.
pub proof fn lemma_round_trip_seq(s: Seq<ValueModel>)
    requires
        value_wf_seq(s),
    ensures
        value_num_ok_seq(s),
        term_ok_seq(to_term_spec_seq(s)),
        to_value_spec_seq(to_term_spec_seq(s)) == s,
    decreases s,
{
    lemma_to_term_spec_seq(s);
    lemma_to_value_spec_seq(to_term_spec_seq(s));
    assert forall|i: int| 0 <= i < s.len() implies value_num_ok(#[trigger] s[i]) && term_ok(
        to_term_spec_seq(s)[i],
    ) && to_value_spec(to_term_spec(s[i])) == s[i] by {
        lemma_round_trip(s[i]);
    }
    assert(to_value_spec_seq(to_term_spec_seq(s)) =~= s);
}

/// Converts a host value to an engine term: the structural inverse of
/// `to_value`, with each numeric payload re-rendered through the host's own
/// formatter so the engine re-parses exactly what the host printed.  `None`
/// exactly when a numeric payload does not parse, the numeric round-trip
/// defect, which signals disagreeing formatters rather than a user error.
pub fn to_term(v: &PyTerm) -> (r: Option<EngineTerm>)
    ensures
        (r is Some) == value_num_ok(value_model(*v)),
        r matches Some(t) ==> term_model(t) == to_term_spec(value_model(*v)),
    decreases *v,
{
    match v {
        PyTerm::Integer { value } => match int_normalize(value.as_str()) {
            Some(c) => Some(EngineTerm::Integer { text: c }),
            None => None,
        },
        PyTerm::Rational { value } => match rat_normalize(value.as_str()) {
            Some(c) => Some(EngineTerm::Rational { text: c }),
            None => None,
        },
        PyTerm::Float { bits, text } => Some(EngineTerm::Float { bits: *bits, text: text.clone() }),
        PyTerm::Atom { value } => Some(EngineTerm::Atom { text: value.clone() }),
        PyTerm::String { value } => Some(EngineTerm::String { text: value.clone() }),
        PyTerm::List { values } => match to_term_vec(values) {
            Some(ts) => Some(EngineTerm::List { items: ts }),
            None => None,
        },
        PyTerm::Compound { functor, args } => match to_term_vec(args) {
            Some(ts) => Some(EngineTerm::Compound { functor: functor.clone(), args: ts }),
            None => None,
        },
        PyTerm::Var { name } => Some(EngineTerm::Var { name: name.clone() }),
    }
}

/// Converts a sequence of values element by element, in order; `None` as soon
/// as any element has the numeric round-trip defect.
fn to_term_vec(vs: &Vec<PyTerm>) -> (r: Option<Vec<EngineTerm>>)
    ensures
        (r is Some) == value_num_ok_seq(value_model_seq(vs@)),
        r matches Some(ts) ==> term_model_seq(ts@) == to_term_spec_seq(value_model_seq(vs@)),
    decreases vs@,
{
    let ghost whole = value_model_seq(vs@);
    proof {
        lemma_value_model_seq(vs@);
        lemma_to_term_spec_seq(whole);
    }
    let mut out: Vec<EngineTerm> = Vec::new();
    let mut i: usize = 0;
    while i < vs.len()
        invariant
            i <= vs.len(),
            whole == value_model_seq(vs@),
            whole.len() == vs@.len(),
            forall|j: int| 0 <= j < vs@.len() ==> whole[j] == value_model(vs@[j]),
            out@.len() == i,
            forall|j: int| 0 <= j < i ==> term_model(#[trigger] out@[j]) == to_term_spec(whole[j]),
            forall|j: int| 0 <= j < i ==> value_num_ok(#[trigger] whole[j]),
        decreases vs@.len() - i,
    {
        proof {
            assert(decreases_to!(vs@ => vs@[i as int]));
        }
        match to_term(&vs[i]) {
            Some(t) => {
                out.push(t);
            },
            None => {
                proof {
                    assert(!value_num_ok(whole[i as int]));
                }
                return None;
            },
        }
        i = i + 1;
    }
    proof {
        lemma_term_model_seq(out@);
        assert(term_model_seq(out@) =~= to_term_spec_seq(whole));
        assert forall|j: int| 0 <= j < whole.len() implies value_num_ok(#[trigger] whole[j]) by {}
    }
    Some(out)
}

/// Whether a term contains any unmodelled kind, so that converting it loses
/// precision by degrading that part to text.  Conversion stays total; this
/// predicate makes the fallback observable instead of silent.
pub open spec fn term_has_fallback(m: TermModel) -> bool
    decreases m,
{
    match m {
        TermModel::Other { rendered } => true,
        TermModel::List { items } => term_has_fallback_seq(items),
        TermModel::Compound { functor, args } => term_has_fallback_seq(args),
        _ => false,
    }
}

/// `term_has_fallback` somewhere in a sequence.
pub open spec fn term_has_fallback_seq(s: Seq<TermModel>) -> bool
    decreases s,
{
    exists|i: int| 0 <= i < s.len() && term_has_fallback(#[trigger] s[i])
}

/// Reports whether converting this term would take the textual fallback path
/// anywhere, so a caller can detect the precision loss before or after
/// converting.
pub fn has_conversion_fallback(t: &EngineTerm) -> (r: bool)
    ensures
        r == term_has_fallback(term_model(*t)),
    decreases *t,
{
    match t {
        EngineTerm::Other { rendered } => true,
        EngineTerm::List { items } => {
            proof {
                assert(decreases_to!(*t => items@));
            }
            has_conversion_fallback_vec(items)
        },
        EngineTerm::Compound { functor, args } => {
            proof {
                assert(decreases_to!(*t => args@));
            }
            has_conversion_fallback_vec(args)
        },
        _ => false,
    }
}

/// Reports whether any term of a sequence would take the fallback path.
fn has_conversion_fallback_vec(ts: &Vec<EngineTerm>) -> (r: bool)
    ensures
        r == term_has_fallback_seq(term_model_seq(ts@)),
    decreases ts@,
{
    let ghost whole = term_model_seq(ts@);
    proof {
        lemma_term_model_seq(ts@);
    }
    let mut i: usize = 0;
    while i < ts.len()
        invariant
            i <= ts.len(),
            whole == term_model_seq(ts@),
            whole.len() == ts@.len(),
            forall|j: int| 0 <= j < ts@.len() ==> whole[j] == term_model(ts@[j]),
            forall|j: int| 0 <= j < i ==> !term_has_fallback(#[trigger] whole[j]),
        decreases ts@.len() - i,
    {
        proof {
            assert(decreases_to!(ts@ => ts@[i as int]));
        }
        if has_conversion_fallback(&ts[i]) {
            proof {
                assert(term_has_fallback(whole[i as int]));
            }
            return true;
        }
        i = i + 1;
    }
    false
}

/// An engine atomic constant and an engine character-string term with the
/// same visible text convert to different value shapes: the distinction is
/// preserved, never inferred from the text.
pub proof fn lemma_atom_string_distinct(text: Seq<char>)
    ensures
        to_value_spec(TermModel::Atom { text }) is Atom,
        to_value_spec(TermModel::Str { text }) is Str,
        to_value_spec(TermModel::Atom { text }) != to_value_spec(TermModel::Str { text }),
{
}

} // verus!
