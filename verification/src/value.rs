//! The host-facing value model: a closed union of every distinguishable term
//! shape the engine can produce or accept.

use vstd::prelude::*;

verus! {

use crate::float_order::{canon_bits, canonical_float_bits, is_nan_bits, F64_CANON_NAN};
use crate::numtext::{int_canon, int_normalize, rat_canon, rat_normalize};

/// A host-side term value.  The type is closed: every engine term kind maps
/// to exactly one of these shapes.  Numeric payloads are carried as canonical
/// decimal text, floats as canonical total-order bit patterns beside their
/// rendered text, so that the derived structural equality and hash are total
/// and deterministic.
#[derive(Debug, PartialEq, Eq, Hash)]
pub enum PyTerm {
    /// An arbitrary precision integer, as canonical decimal text.
    Integer { value: String },
    /// An arbitrary precision rational, as canonical `numer/denom` text.
    Rational { value: String },
    /// A float: its canonical total-order bit pattern and its rendered text.
    Float { bits: u64, text: String },
    /// A Prolog atom.
    Atom { value: String },
    /// A Prolog string.
    ///
    /// In particular, this represents Prolog lists of characters; it is kept
    /// distinct from `Atom` even when the visible text is the same.
    String { value: String },
    /// A Prolog list.
    List { values: Vec<PyTerm> },
    /// A Prolog compound term.
    Compound { functor: String, args: Vec<PyTerm> },
    /// An engine term that remained an unbound variable in the answer.
    Var { name: String },
}

/// The mathematical model of a `PyTerm`: the same shapes over sequences.
pub enum ValueModel {
    Integer { text: Seq<char> },
    Rational { text: Seq<char> },
    Float { bits: u64, text: Seq<char> },
    Atom { text: Seq<char> },
    Str { text: Seq<char> },
    List { items: Seq<ValueModel> },
    Compound { functor: Seq<char>, args: Seq<ValueModel> },
    Var { name: Seq<char> },
}

/// The model of a value.
pub open spec fn value_model(v: PyTerm) -> ValueModel
    decreases v,
{
    match v {
        PyTerm::Integer { value } => ValueModel::Integer { text: value@ },
        PyTerm::Rational { value } => ValueModel::Rational { text: value@ },
        PyTerm::Float { bits, text } => ValueModel::Float { bits, text: text@ },
        PyTerm::Atom { value } => ValueModel::Atom { text: value@ },
        PyTerm::String { value } => ValueModel::Str { text: value@ },
        PyTerm::List { values } => ValueModel::List { items: value_model_seq(values@) },
        PyTerm::Compound { functor, args } => ValueModel::Compound {
            functor: functor@,
            args: value_model_seq(args@),
        },
        PyTerm::Var { name } => ValueModel::Var { name: name@ },
    }
}

/// The models of a sequence of values, in order.
pub open spec fn value_model_seq(s: Seq<PyTerm>) -> Seq<ValueModel>
    decreases s,
{
    if s.len() == 0 {
        Seq::empty()
    } else {
        seq![value_model(s[0])] + value_model_seq(s.drop_first())
    }
}

/// Well-formedness of a value model: numeric text is canonical (a fixed point
/// of normalisation) and float bit patterns are canonical.  Constructors
/// establish it and both conversion directions preserve it.
pub open spec fn value_wf(m: ValueModel) -> bool
    decreases m,
{
    match m {
        ValueModel::Integer { text } => int_canon(text) == Some(text),
        ValueModel::Rational { text } => rat_canon(text) == Some(text),
        ValueModel::Float { bits, text } => bits == canon_bits(bits) && (is_nan_bits(bits)
            ==> text == "NaN"@),
        ValueModel::Atom { text } => true,
        ValueModel::Str { text } => true,
        ValueModel::List { items } => value_wf_seq(items),
        ValueModel::Compound { functor, args } => value_wf_seq(args),
        ValueModel::Var { name } => true,
    }
}

/// Well-formedness of every model in a sequence.
pub open spec fn value_wf_seq(s: Seq<ValueModel>) -> bool
    decreases s,
{
    forall|i: int| 0 <= i < s.len() ==> value_wf(#[trigger] s[i])
}

/// The model of the float value built from a raw bit pattern: the canonical
/// pattern, with the text pinned to `NaN` for not-a-number patterns and to
/// `0` when the pattern collapses to zero.
pub open spec fn float_model(bits: u64, text: Seq<char>) -> ValueModel {
    if is_nan_bits(bits) {
        ValueModel::Float { bits: F64_CANON_NAN, text: "NaN"@ }
    } else if canon_bits(bits) == 0 && bits != 0 {
        ValueModel::Float { bits: 0, text: "0"@ }
    } else {
        ValueModel::Float { bits, text }
    }
}

impl PyTerm {
    /// Builds an integer value from decimal text, normalising it; `None` when
    /// the text is not decimal integer text.
    pub fn integer(text: &str) -> (r: Option<PyTerm>)
        ensures
            (r is Some) == (int_canon(text@) is Some),
            r matches Some(v) ==> value_model(v) == (ValueModel::Integer {
                text: int_canon(text@)->0,
            }) && value_wf(value_model(v)),
    {
        match int_normalize(text) {
            Some(t) => Some(PyTerm::Integer { value: t }),
            None => None,
        }
    }

    /// Builds a rational value from `numer/denom` (or plain integer) decimal
    /// text, normalising it; `None` when the text does not parse or the
    /// denominator is zero.
    pub fn rational(text: &str) -> (r: Option<PyTerm>)
        ensures
            (r is Some) == (rat_canon(text@) is Some),
            r matches Some(v) ==> value_model(v) == (ValueModel::Rational {
                text: rat_canon(text@)->0,
            }) && value_wf(value_model(v)),
    {
        match rat_normalize(text) {
            Some(t) => Some(PyTerm::Rational { value: t }),
            None => None,
        }
    }

    /// Builds a float value from a raw bit pattern and its rendered text.
    /// The pattern is canonicalised; the text of a not-a-number or negative
    /// zero pattern is pinned to the canonical rendering, so that structural
    /// equality of float values is the total-order equality.
    pub fn float_from_bits(bits: u64, text: String) -> (r: PyTerm)
        ensures
            value_model(r) == float_model(bits, text@),
            value_wf(value_model(r)),
    {
        let canon = canonical_float_bits(bits);
        proof {
            crate::float_order::lemma_canon_idempotent(bits);
            crate::float_order::lemma_canon_keeps_nan(bits);
            if is_nan_bits(bits) {
                crate::float_order::lemma_canon_nan_is_nan();
            }
        }
        if canon != bits {
            if canon == 0 {
                PyTerm::Float { bits: 0, text: String::from_str("0") }
            } else {
                PyTerm::Float { bits: canon, text: String::from_str("NaN") }
            }
        } else {
            if bits & crate::float_order::F64_EXP_MASK == crate::float_order::F64_EXP_MASK
                && bits & crate::float_order::F64_MAN_MASK != 0 {
                PyTerm::Float { bits: canon, text: String::from_str("NaN") }
            } else {
                PyTerm::Float { bits, text }
            }
        }
    }
}


/// The source-text rendering of a value: numbers print their decimal form,
/// an atom prints bare, a string prints quoted, a list prints bracketed and
/// comma-joined, a compound prints `functor(arg, arg, ...)`, and a variable
/// prints its bare name.  Deterministic and side-effect free; used both for
/// display and for embedding raised terms into error messages.
pub open spec fn render_model(m: ValueModel) -> Seq<char>
    decreases m,
{
    match m {
        ValueModel::Integer { text } => text,
        ValueModel::Rational { text } => text,
        ValueModel::Float { bits, text } => text,
        ValueModel::Atom { text } => text,
        ValueModel::Str { text } => seq!['"'] + text + seq!['"'],
        ValueModel::List { items } => seq!['['] + render_join(items) + seq![']'],
        ValueModel::Compound { functor, args } => functor + seq!['('] + render_join(args)
            + seq![')'],
        ValueModel::Var { name } => name,
    }
}

/// The renderings of a sequence of values, joined by a comma and a space.
pub open spec fn render_join(items: Seq<ValueModel>) -> Seq<char>
    decreases items,
{
    if items.len() == 0 {
        Seq::empty()
    } else if items.len() == 1 {
        render_model(items[0])
    } else {
        render_join(items.drop_last()) + seq![',', ' '] + render_model(items.last())
    }
}

/// Renders a value as Prolog-like source text.
pub fn render(v: &PyTerm) -> (r: String)
    ensures
        r@ == render_model(value_model(*v)),
    decreases *v,
{
    match v {
        PyTerm::Integer { value } => value.clone(),
        PyTerm::Rational { value } => value.clone(),
        PyTerm::Float { bits, text } => text.clone(),
        PyTerm::Atom { value } => value.clone(),
        PyTerm::String { value } => {
            let mut s = String::from_str("\"");
            s.append(value.as_str());
            s.append("\"");
            proof {
                reveal_strlit("\"");
                assert(s@ =~= seq!['"'] + value@ + seq!['"']);
            }
            s
        },
        PyTerm::List { values } => {
            proof {
                assert(decreases_to!(*v => values@));
            }
            let mut s = String::from_str("[");
            let inner = render_join_exec(values);
            s.append(inner.as_str());
            s.append("]");
            proof {
                reveal_strlit("[");
                reveal_strlit("]");
                assert(s@ =~= seq!['['] + render_join(value_model_seq(values@)) + seq![']']);
            }
            s
        },
        PyTerm::Compound { functor, args } => {
            proof {
                assert(decreases_to!(*v => args@));
            }
            let mut s = functor.clone();
            s.append("(");
            let inner = render_join_exec(args);
            s.append(inner.as_str());
            s.append(")");
            proof {
                reveal_strlit("(");
                reveal_strlit(")");
                assert(s@ =~= functor@ + seq!['('] + render_join(value_model_seq(args@))
                    + seq![')']);
            }
            s
        },
        PyTerm::Var { name } => name.clone(),
    }
}

/// Renders a sequence of values comma-joined, in order.
fn render_join_exec(items: &Vec<PyTerm>) -> (r: String)
    ensures
        r@ == render_join(value_model_seq(items@)),
    decreases items@,
{
    let ghost m = value_model_seq(items@);
    proof {
        lemma_value_model_seq(items@);
    }
    let mut s = String::new();
    let mut i: usize = 0;
    while i < items.len()
        invariant
            i <= items.len(),
            m == value_model_seq(items@),
            m.len() == items@.len(),
            forall|j: int| 0 <= j < items@.len() ==> m[j] == value_model(items@[j]),
            s@ == render_join(m.take(i as int)),
        decreases items@.len() - i,
    {
        proof {
            assert(decreases_to!(items@ => items@[i as int]));
        }
        if i > 0 {
            s.append(", ");
        }
        let piece = render(&items[i]);
        s.append(piece.as_str());
        proof {
            reveal_strlit(", ");
            let t1 = m.take(i as int + 1);
            assert(t1.last() == m[i as int]);
            if i == 0 {
                assert(t1.len() == 1);
                assert(t1[0] == m[0]);
                assert(s@ =~= render_join(t1));
            } else {
                assert(t1.drop_last() =~= m.take(i as int));
                assert(s@ =~= render_join(t1));
            }
        }
        i = i + 1;
    }
    proof {
        assert(m.take(items@.len() as int) =~= m);
    }
    s
}

/// The models of a sequence line up with the models of its elements.
pub proof fn lemma_value_model_seq(s: Seq<PyTerm>)
    ensures
        value_model_seq(s).len() == s.len(),
        forall|i: int| 0 <= i < s.len() ==> value_model_seq(s)[i] == value_model(s[i]),
    decreases s,
{
    if s.len() > 0 {
        lemma_value_model_seq(s.drop_first());
    }
}

/// All values wrapping a not-a-number pattern are equal to one another, and
/// unequal to any float value wrapping a pattern that is not one.
pub proof fn lemma_float_total_eq(b1: u64, t1: Seq<char>, b2: u64, t2: Seq<char>)
    ensures
        is_nan_bits(b1) && is_nan_bits(b2) ==> float_model(b1, t1) == float_model(b2, t2),
        is_nan_bits(b1) && !is_nan_bits(b2) ==> float_model(b1, t1) != float_model(b2, t2),
{
    crate::float_order::lemma_canon_nan_is_nan();
    crate::float_order::lemma_canon_keeps_nan(b2);
    crate::float_order::lemma_zero_not_nan();
}

} // verus!
