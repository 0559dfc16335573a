//! The query-execution protocol: one resolution process as a lazy, pull-based
//! cursor over answers.
//!
//! The engine hands back one event per resolution step: success with or
//! without bindings, failure, an exception, or a logical error term (and the
//! stream itself may simply end).  This module holds every decision made over
//! those events: what a single step means for the first-answer call, how a
//! whole stream folds into the all-answers call, and the cursor state machine
//! whose terminal states are idempotent.  Advancing resolution itself is the
//! engine's blocking, possibly non-terminating work and stays with the
//! caller, who pulls one event at a time and feeds it in.

use vstd::prelude::*;

verus! {

use crate::term::{term_model, term_ok, to_value, to_value_spec, EngineTerm};
use crate::value::{render, render_model, value_model, PyTerm, ValueModel};

/// One raw event from the engine's answer stream.
#[derive(Debug, PartialEq)]
pub enum RawStep {
    /// The query succeeded with no variable bindings.
    True,
    /// The query has no (more) solutions.
    False,
    /// The query succeeded, binding variables.
    Solution { bindings: Vec<(String, EngineTerm)> },
    /// Resolution raised a non-logical exception carrying a term.
    Exception { term: EngineTerm },
    /// Resolution produced a logical error term, distinct from an exception.
    ErrorTerm { term: EngineTerm },
}

/// A typed query failure.
#[derive(Debug, Clone, PartialEq)]
pub enum EngineError {
    /// The engine raised an exception; the message embeds the rendered term.
    Exception { message: String },
    /// The engine produced an error term; the message embeds its rendering.
    ErrorTerm { message: String },
    /// A numeric payload could not be re-parsed: the two numeric formatters
    /// disagree, an internal invariant violation rather than a user error.
    NumericDefect,
}

/// The mathematical model of an `EngineError`.
pub enum ErrorModel {
    Exception { message: Seq<char> },
    ErrorTerm { message: Seq<char> },
    NumericDefect,
}

/// The model of an error.
pub open spec fn error_model(e: EngineError) -> ErrorModel {
    match e {
        EngineError::Exception { message } => ErrorModel::Exception { message: message@ },
        EngineError::ErrorTerm { message } => ErrorModel::ErrorTerm { message: message@ },
        EngineError::NumericDefect => ErrorModel::NumericDefect,
    }
}

/// The model of a converted binding set: each variable name beside the model
/// of its value, in the engine's order.
pub open spec fn bindings_model(b: Seq<(String, PyTerm)>) -> Seq<(Seq<char>, ValueModel)> {
    b.map_values(|p: (String, PyTerm)| (p.0@, value_model(p.1)))
}

/// Whether every bound value in a raw binding set converts.
pub open spec fn raw_bindings_ok(b: Seq<(String, EngineTerm)>) -> bool {
    forall|i: int| 0 <= i < b.len() ==> term_ok(term_model((#[trigger] b[i]).1))
}

/// What converting a raw binding set yields: names kept, values converted,
/// order preserved.
pub open spec fn converted_bindings(b: Seq<(String, EngineTerm)>) -> Seq<(Seq<char>, ValueModel)> {
    b.map_values(|p: (String, EngineTerm)| (p.0@, to_value_spec(term_model(p.1))))
}

/// The message reported for an engine exception: the rendered offending term
/// behind a fixed prefix.
pub open spec fn exception_message(t: EngineTerm) -> Seq<char> {
    "Prolog exception: "@ + render_model(to_value_spec(term_model(t)))
}

/// The message reported for a logical error term.
pub open spec fn error_term_message(t: EngineTerm) -> Seq<char> {
    "Prolog error term: "@ + render_model(to_value_spec(term_model(t)))
}

/// The error a raised term maps to: the rendered message under the kind the
/// engine distinguished, or the numeric defect when the term itself cannot be
/// converted.
pub open spec fn raised_error(t: EngineTerm, is_exception: bool) -> ErrorModel {
    if !term_ok(term_model(t)) {
        ErrorModel::NumericDefect
    } else if is_exception {
        ErrorModel::Exception { message: exception_message(t) }
    } else {
        ErrorModel::ErrorTerm { message: error_term_message(t) }
    }
}

/// The model of a first-answer result.
pub open spec fn first_result_model(r: Result<Option<Vec<(String, PyTerm)>>, EngineError>) -> Result<
    Option<Seq<(Seq<char>, ValueModel)>>,
    ErrorModel,
> {
    match r {
        Ok(None) => Ok(None),
        Ok(Some(b)) => Ok(Some(bindings_model(b@))),
        Err(e) => Err(error_model(e)),
    }
}

/// What advancing resolution exactly once means: no event or a failure event
/// is "no solution"; plain success is a present, empty binding set, distinct
/// from no solution; bound success is the converted bindings; a raised term
/// is the corresponding typed error.
pub open spec fn first_model(step: Option<RawStep>) -> Result<
    Option<Seq<(Seq<char>, ValueModel)>>,
    ErrorModel,
> {
    match step {
        None => Ok(None),
        Some(RawStep::False) => Ok(None),
        Some(RawStep::True) => Ok(Some(Seq::empty())),
        Some(RawStep::Solution { bindings }) => if raw_bindings_ok(bindings@) {
            Ok(Some(converted_bindings(bindings@)))
        } else {
            Err(ErrorModel::NumericDefect)
        },
        Some(RawStep::Exception { term }) => Err(raised_error(term, true)),
        Some(RawStep::ErrorTerm { term }) => Err(raised_error(term, false)),
    }
}

/// Converts one raw binding set: names kept, values converted, order
/// preserved; `None` on the numeric round-trip defect.
pub fn convert_bindings(b: &Vec<(String, EngineTerm)>) -> (r: Option<Vec<(String, PyTerm)>>)
    ensures
        (r is Some) == raw_bindings_ok(b@),
        r matches Some(out) ==> bindings_model(out@) == converted_bindings(b@),
{
    let mut out: Vec<(String, PyTerm)> = Vec::new();
    let mut i: usize = 0;
    while i < b.len()
        invariant
            i <= b.len(),
            out@.len() == i,
            forall|j: int| 0 <= j < i ==> term_ok(term_model((#[trigger] b@[j]).1)),
            forall|j: int| 0 <= j < i ==> (#[trigger] out@[j]).0@ == b@[j].0@ && value_model(
                out@[j].1,
            ) == to_value_spec(term_model(b@[j].1)),
        decreases b@.len() - i,
    {
        let (name, term) = &b[i];
        match to_value(term) {
            Some(v) => {
                out.push((name.clone(), v));
            },
            None => {
                proof {
                    assert(!term_ok(term_model(b@[i as int].1)));
                }
                return None;
            },
        }
        i = i + 1;
    }
    proof {
        assert(bindings_model(out@) =~= converted_bindings(b@));
    }
    Some(out)
}

/// Renders the message for a raised term: a fixed prefix for its kind, then
/// the term rendered as source text; `None` on the numeric defect.
fn raised_text(t: &EngineTerm, is_exception: bool) -> (r: Option<String>)
    ensures
        (r is Some) == term_ok(term_model(*t)),
        r matches Some(s) ==> s@ == if is_exception {
            exception_message(*t)
        } else {
            error_term_message(*t)
        },
{
    match to_value(t) {
        Some(v) => {
            let rendered = render(&v);
            let mut message = if is_exception {
                String::from_str("Prolog exception: ")
            } else {
                String::from_str("Prolog error term: ")
            };
            message.append(rendered.as_str());
            Some(message)
        },
        None => None,
    }
}

/// Decides the first-answer call from the single event one resolution step
/// produced (`None` when the stream yielded nothing).
pub fn first_answer(step: Option<RawStep>) -> (r: Result<
    Option<Vec<(String, PyTerm)>>,
    EngineError,
>)
    ensures
        first_result_model(r) == first_model(step),
{
    match step {
        None => Ok(None),
        Some(RawStep::False) => Ok(None),
        Some(RawStep::True) => {
            let empty: Vec<(String, PyTerm)> = Vec::new();
            proof {
                assert(bindings_model(empty@) =~= Seq::<(Seq<char>, ValueModel)>::empty());
            }
            Ok(Some(empty))
        },
        Some(RawStep::Solution { bindings }) => match convert_bindings(&bindings) {
            Some(out) => Ok(Some(out)),
            None => Err(EngineError::NumericDefect),
        },
        Some(RawStep::Exception { term }) => match raised_text(&term, true) {
            Some(message) => Err(EngineError::Exception { message }),
            None => Err(EngineError::NumericDefect),
        },
        Some(RawStep::ErrorTerm { term }) => match raised_text(&term, false) {
            Some(message) => Err(EngineError::ErrorTerm { message }),
            None => Err(EngineError::NumericDefect),
        },
    }
}

/// The models of the binding sets collected so far, in order.
pub open spec fn collected_model(out: Seq<Vec<(String, PyTerm)>>) -> Seq<
    Seq<(Seq<char>, ValueModel)>,
> {
    out.map_values(|b: Vec<(String, PyTerm)>| bindings_model(b@))
}

/// A fold outcome with already-collected answers in front of it.
pub open spec fn with_prefix(
    prefix: Seq<Seq<(Seq<char>, ValueModel)>>,
    tail: Result<Seq<Seq<(Seq<char>, ValueModel)>>, ErrorModel>,
) -> Result<Seq<Seq<(Seq<char>, ValueModel)>>, ErrorModel> {
    match tail {
        Ok(rest) => Ok(prefix + rest),
        Err(e) => Err(e),
    }
}

/// The fold of the event stream from position `i` on: each success prepends
/// its converted bindings, a failure event or the stream's end stops with
/// what lies behind it, and a raised term fails the whole fold.
pub open spec fn collect_model_from(steps: Seq<RawStep>, i: int) -> Result<
    Seq<Seq<(Seq<char>, ValueModel)>>,
    ErrorModel,
>
    decreases steps.len() - i,
{
    if i < 0 || i >= steps.len() {
        Ok(Seq::empty())
    } else {
        match steps[i] {
            RawStep::False => Ok(Seq::empty()),
            RawStep::True => with_prefix(
                seq![Seq::<(Seq<char>, ValueModel)>::empty()],
                collect_model_from(steps, i + 1),
            ),
            RawStep::Solution { bindings } => if raw_bindings_ok(bindings@) {
                with_prefix(seq![converted_bindings(bindings@)], collect_model_from(steps, i + 1))
            } else {
                Err(ErrorModel::NumericDefect)
            },
            RawStep::Exception { term } => Err(raised_error(term, true)),
            RawStep::ErrorTerm { term } => Err(raised_error(term, false)),
        }
    }
}

/// What folding a whole event stream means for the all-answers call.
pub open spec fn collect_model(steps: Seq<RawStep>) -> Result<
    Seq<Seq<(Seq<char>, ValueModel)>>,
    ErrorModel,
> {
    collect_model_from(steps, 0)
}

/// The model of an all-answers result.
pub open spec fn collect_result_model(r: Result<Vec<Vec<(String, PyTerm)>>, EngineError>) -> Result<
    Seq<Seq<(Seq<char>, ValueModel)>>,
    ErrorModel,
> {
    match r {
        Ok(out) => Ok(collected_model(out@)),
        Err(e) => Err(error_model(e)),
    }
}

/// Collecting one more answer moves one element of the fold's tail onto the
/// collected prefix.
proof fn lemma_collect_push(
    prev: Seq<Vec<(String, PyTerm)>>,
    pushed: Vec<(String, PyTerm)>,
    tail: Result<Seq<Seq<(Seq<char>, ValueModel)>>, ErrorModel>,
)
    ensures
        with_prefix(collected_model(prev), with_prefix(seq![bindings_model(pushed@)], tail))
            == with_prefix(collected_model(prev.push(pushed)), tail),
{
    assert(collected_model(prev.push(pushed)) =~= collected_model(prev).push(
        bindings_model(pushed@),
    ));
    match tail {
        Ok(rest) => {
            assert(collected_model(prev) + (seq![bindings_model(pushed@)] + rest)
                =~= collected_model(prev).push(bindings_model(pushed@)) + rest);
        },
        Err(_) => {},
    }
}

/// Folds a finite, already-pulled event stream into the all-answers result:
/// converted binding sets in resolution order, never reordered or
/// deduplicated; a raised term anywhere makes the whole call fail, and the
/// answers collected before it are discarded rather than returned.
pub fn collect_answers(steps: &Vec<RawStep>) -> (r: Result<
    Vec<Vec<(String, PyTerm)>>,
    EngineError,
>)
    ensures
        collect_result_model(r) == collect_model(steps@),
{
    let mut out: Vec<Vec<(String, PyTerm)>> = Vec::new();
    let mut i: usize = 0;
    proof {
        match collect_model_from(steps@, 0) {
            Ok(rest) => {
                assert(collected_model(out@) + rest =~= rest);
            },
            Err(_) => {},
        }
    }
    while i < steps.len()
        invariant
            i <= steps@.len(),
            collect_model(steps@) == with_prefix(
                collected_model(out@),
                collect_model_from(steps@, i as int),
            ),
        decreases steps@.len() - i,
    {
        let ghost out_before = out@;
        match &steps[i] {
            RawStep::False => {
                proof {
                    assert(collected_model(out@) + Seq::<Seq<(Seq<char>, ValueModel)>>::empty()
                        =~= collected_model(out@));
                }
                return Ok(out);
            },
            RawStep::True => {
                let empty: Vec<(String, PyTerm)> = Vec::new();
                proof {
                    assert(bindings_model(empty@) =~= Seq::<(Seq<char>, ValueModel)>::empty());
                }
                out.push(empty);
                proof {
                    lemma_collect_push(
                        out_before,
                        out@.last(),
                        collect_model_from(steps@, i as int + 1),
                    );
                }
            },
            RawStep::Solution { bindings } => match convert_bindings(bindings) {
                Some(converted) => {
                    out.push(converted);
                    proof {
                        lemma_collect_push(
                            out_before,
                            out@.last(),
                            collect_model_from(steps@, i as int + 1),
                        );
                    }
                },
                None => {
                    return Err(EngineError::NumericDefect);
                },
            },
            RawStep::Exception { term } => {
                return Err(
                    match raised_text(term, true) {
                        Some(message) => EngineError::Exception { message },
                        None => EngineError::NumericDefect,
                    },
                );
            },
            RawStep::ErrorTerm { term } => {
                return Err(
                    match raised_text(term, false) {
                        Some(message) => EngineError::ErrorTerm { message },
                        None => EngineError::NumericDefect,
                    },
                );
            },
        }
        i = i + 1;
    }
    proof {
        assert(collected_model(out@) + Seq::<Seq<(Seq<char>, ValueModel)>>::empty()
            =~= collected_model(out@));
    }
    Ok(out)
}

/// The state of a query cursor: it starts before any resolution step, stays
/// active while answers keep coming, and ends in one of two terminal states.
#[derive(Debug, PartialEq)]
pub enum CursorState {
    /// No resolution step has been asked for yet.
    NotStarted,
    /// The last step produced an answer; more may follow.
    Active,
    /// Resolution reported no more solutions; terminal.
    Exhausted,
    /// Resolution raised; terminal, holding the error it raised.
    Errored { error: EngineError },
}

/// The mathematical model of a cursor state.
pub enum CursorModel {
    NotStarted,
    Active,
    Exhausted,
    Errored { error: ErrorModel },
}

/// The model of a cursor state.
pub open spec fn cursor_state_model(s: CursorState) -> CursorModel {
    match s {
        CursorState::NotStarted => CursorModel::NotStarted,
        CursorState::Active => CursorModel::Active,
        CursorState::Exhausted => CursorModel::Exhausted,
        CursorState::Errored { error } => CursorModel::Errored { error: error_model(error) },
    }
}

/// What one next-answer call hands the caller.
#[derive(Debug, PartialEq)]
pub enum Advance {
    /// One more answer: a converted binding set (empty for plain success).
    Answer { bindings: Vec<(String, PyTerm)> },
    /// No more solutions.
    Exhausted,
    /// The query failed; no further answers will be produced.
    Failed { error: EngineError },
}

/// The mathematical model of a next-answer outcome.
pub enum AdvanceModel {
    Answer { bindings: Seq<(Seq<char>, ValueModel)> },
    Exhausted,
    Failed { error: ErrorModel },
}

/// The model of a next-answer outcome.
pub open spec fn advance_model(a: Advance) -> AdvanceModel {
    match a {
        Advance::Answer { bindings } => AdvanceModel::Answer {
            bindings: bindings_model(bindings@),
        },
        Advance::Exhausted => AdvanceModel::Exhausted,
        Advance::Failed { error } => AdvanceModel::Failed { error: error_model(error) },
    }
}

/// The cursor transition: a terminal state absorbs any event, stays put and
/// repeats its signal; otherwise no event or a failure event exhausts the
/// cursor, a success keeps it active and yields the (possibly empty)
/// converted bindings, and a raised term moves it to the errored state.
pub open spec fn cursor_step(s: CursorModel, event: Option<RawStep>) -> (CursorModel, AdvanceModel) {
    match s {
        CursorModel::Exhausted => (CursorModel::Exhausted, AdvanceModel::Exhausted),
        CursorModel::Errored { error } => (
            CursorModel::Errored { error },
            AdvanceModel::Failed { error },
        ),
        _ => match event {
            None => (CursorModel::Exhausted, AdvanceModel::Exhausted),
            Some(RawStep::False) => (CursorModel::Exhausted, AdvanceModel::Exhausted),
            Some(RawStep::True) => (
                CursorModel::Active,
                AdvanceModel::Answer { bindings: Seq::empty() },
            ),
            Some(RawStep::Solution { bindings }) => if raw_bindings_ok(bindings@) {
                (
                    CursorModel::Active,
                    AdvanceModel::Answer { bindings: converted_bindings(bindings@) },
                )
            } else {
                (
                    CursorModel::Errored { error: ErrorModel::NumericDefect },
                    AdvanceModel::Failed { error: ErrorModel::NumericDefect },
                )
            },
            Some(RawStep::Exception { term }) => (
                CursorModel::Errored { error: raised_error(term, true) },
                AdvanceModel::Failed { error: raised_error(term, true) },
            ),
            Some(RawStep::ErrorTerm { term }) => (
                CursorModel::Errored { error: raised_error(term, false) },
                AdvanceModel::Failed { error: raised_error(term, false) },
            ),
        },
    }
}

/// One query's answer cursor.  The caller pulls an event from the engine only
/// while the cursor wants one and feeds it to `next`; once the cursor is
/// terminal, `next` repeats the terminal signal without any event, so
/// resolution is never re-run.
pub struct QueryCursor {
    state: CursorState,
}

impl QueryCursor {
    /// The model of the cursor.
    pub closed spec fn model(&self) -> CursorModel {
        cursor_state_model(self.state)
    }

    /// A fresh cursor for a newly issued query.
    pub fn new() -> (r: QueryCursor)
        ensures
            r.model() == CursorModel::NotStarted,
    {
        QueryCursor { state: CursorState::NotStarted }
    }

    /// Whether the caller should pull one more event from the engine: only
    /// while the cursor is not terminal.
    pub fn wants_event(&self) -> (r: bool)
        ensures
            r == (self.model() is NotStarted || self.model() is Active),
    {
        match &self.state {
            CursorState::NotStarted => true,
            CursorState::Active => true,
            _ => false,
        }
    }

    /// Advances the cursor by one event (`None` when the engine's stream
    /// yielded nothing, or when the cursor is terminal and nothing was
    /// pulled).  The transition and the returned signal are exactly
    /// `cursor_step`; in particular a terminal cursor ignores the event,
    /// keeps its state and repeats its terminal signal.
    pub fn next(&mut self, event: Option<RawStep>) -> (r: Advance)
        ensures
            final(self).model() == cursor_step(old(self).model(), event).0,
            advance_model(r) == cursor_step(old(self).model(), event).1,
    {
        match &self.state {
            CursorState::Exhausted => Advance::Exhausted,
            CursorState::Errored { error } => {
                let again = match error {
                    EngineError::Exception { message } => EngineError::Exception {
                        message: message.clone(),
                    },
                    EngineError::ErrorTerm { message } => EngineError::ErrorTerm {
                        message: message.clone(),
                    },
                    EngineError::NumericDefect => EngineError::NumericDefect,
                };
                Advance::Failed { error: again }
            },
            _ => {
                match event {
                    None => {
                        self.state = CursorState::Exhausted;
                        Advance::Exhausted
                    },
                    Some(RawStep::False) => {
                        self.state = CursorState::Exhausted;
                        Advance::Exhausted
                    },
                    Some(RawStep::True) => {
                        self.state = CursorState::Active;
                        let empty: Vec<(String, PyTerm)> = Vec::new();
                        proof {
                            assert(bindings_model(empty@) =~= Seq::<
                                (Seq<char>, ValueModel),
                            >::empty());
                        }
                        Advance::Answer { bindings: empty }
                    },
                    Some(RawStep::Solution { bindings }) => match convert_bindings(&bindings) {
                        Some(converted) => {
                            self.state = CursorState::Active;
                            Advance::Answer { bindings: converted }
                        },
                        None => {
                            self.state = CursorState::Errored {
                                error: EngineError::NumericDefect,
                            };
                            Advance::Failed { error: EngineError::NumericDefect }
                        },
                    },
                    Some(RawStep::Exception { term }) => match raised_text(&term, true) {
                        Some(message) => {
                            self.state = CursorState::Errored {
                                error: EngineError::Exception { message: message.clone() },
                            };
                            Advance::Failed { error: EngineError::Exception { message } }
                        },
                        None => {
                            self.state = CursorState::Errored {
                                error: EngineError::NumericDefect,
                            };
                            Advance::Failed { error: EngineError::NumericDefect }
                        },
                    },
                    Some(RawStep::ErrorTerm { term }) => match raised_text(&term, false) {
                        Some(message) => {
                            self.state = CursorState::Errored {
                                error: EngineError::ErrorTerm { message: message.clone() },
                            };
                            Advance::Failed { error: EngineError::ErrorTerm { message } }
                        },
                        None => {
                            self.state = CursorState::Errored {
                                error: EngineError::NumericDefect,
                            };
                            Advance::Failed { error: EngineError::NumericDefect }
                        },
                    },
                }
            },
        }
    }
}

/// Success without bindings and "no solution" have distinct encodings: a
/// plain-success event yields a present, empty binding set, never the absent
/// answer that a failure event or an ended stream yields.
pub proof fn lemma_empty_binding_vs_no_solution()
    ensures
        first_model(Some(RawStep::True)) == Ok::<_, ErrorModel>(
            Some(Seq::<(Seq<char>, ValueModel)>::empty()),
        ),
        first_model(None) == Ok::<Option<Seq<(Seq<char>, ValueModel)>>, ErrorModel>(None),
        first_model(Some(RawStep::False)) == Ok::<Option<Seq<(Seq<char>, ValueModel)>>, ErrorModel>(
            None,
        ),
        first_model(Some(RawStep::True)) != first_model(None),
{
}

/// Ordering preserved: over a stream of convertible solution events the
/// all-answers fold returns every converted binding set, in exactly the
/// stream's order, never reordered or deduplicated.
pub proof fn lemma_order_preserved(steps: Seq<RawStep>)
    requires
        forall|i: int|
            0 <= i < steps.len() ==> (#[trigger] steps[i]) is Solution && raw_bindings_ok(
                steps[i]->bindings@,
            ),
    ensures
        collect_model(steps) matches Ok(out) && out.len() == steps.len() && forall|i: int|
            0 <= i < steps.len() ==> out[i] == converted_bindings(steps[i]->bindings@),
{
    lemma_order_preserved_from(steps, 0);
}

/// The ordered fold from position `k` on, over solution events only.
proof fn lemma_order_preserved_from(steps: Seq<RawStep>, k: int)
    requires
        0 <= k <= steps.len(),
        forall|i: int|
            k <= i < steps.len() ==> (#[trigger] steps[i]) is Solution && raw_bindings_ok(
                steps[i]->bindings@,
            ),
    ensures
        collect_model_from(steps, k) matches Ok(out) && out.len() == steps.len() - k && forall|
            j: int,
        |
            0 <= j < steps.len() - k ==> out[j] == converted_bindings(steps[k + j]->bindings@),
    decreases steps.len() - k,
{
    if k < steps.len() {
        lemma_order_preserved_from(steps, k + 1);
    }
}

/// Exception propagation: a raised term anywhere in the stream makes the
/// whole fold fail with the corresponding error; the answers collected before
/// it are superseded, never silently returned.
pub proof fn lemma_error_supersedes(steps: Seq<RawStep>, k: int)
    requires
        0 <= k < steps.len(),
        forall|i: int|
            0 <= i < k ==> ((#[trigger] steps[i]) is Solution && raw_bindings_ok(
                steps[i]->bindings@,
            )) || steps[i] is True,
        steps[k] is Exception || steps[k] is ErrorTerm,
    ensures
        collect_model(steps) is Err,
{
    lemma_error_supersedes_from(steps, k, 0);
}

/// The failing fold from position `i` on, with the raised term at `k`.
proof fn lemma_error_supersedes_from(steps: Seq<RawStep>, k: int, i: int)
    requires
        0 <= i <= k < steps.len(),
        forall|j: int|
            i <= j < k ==> ((#[trigger] steps[j]) is Solution && raw_bindings_ok(
                steps[j]->bindings@,
            )) || steps[j] is True,
        steps[k] is Exception || steps[k] is ErrorTerm,
    ensures
        collect_model_from(steps, i) is Err,
    decreases k - i,
{
    if i < k {
        lemma_error_supersedes_from(steps, k, i + 1);
    }
}

/// Idempotent terminal cursor: a terminal state absorbs any event, stays in
/// place, and repeats exactly the same terminal signal, so resolution is
/// never advanced again.
pub proof fn lemma_terminal_idempotent(s: CursorModel, e1: Option<RawStep>, e2: Option<RawStep>)
    requires
        s is Exhausted || s is Errored,
    ensures
        cursor_step(s, e1) == cursor_step(s, e2),
        cursor_step(s, e1).0 == s,
{
}

/// The two views of a single resolution step agree: what the first-answer
/// call reports for an event is exactly what a fresh cursor signals for it.
pub proof fn lemma_first_agrees_with_cursor(event: Option<RawStep>)
    ensures
        first_model(event) == match cursor_step(CursorModel::NotStarted, event).1 {
            AdvanceModel::Answer { bindings } => Ok::<_, ErrorModel>(Some(bindings)),
            AdvanceModel::Exhausted => Ok(None),
            AdvanceModel::Failed { error } => Err(error),
        },
{
}

/// What a driver that pulls lazily computes: starting from a live cursor at
/// position `i` of a finite stream, feed the next event (or the stream's end)
/// and collect each yielded answer until the cursor signals.
pub open spec fn drive_model(steps: Seq<RawStep>, i: int) -> Result<
    Seq<Seq<(Seq<char>, ValueModel)>>,
    ErrorModel,
>
    decreases steps.len() - i + 1,
{
    let event = if 0 <= i < steps.len() {
        Some(steps[i])
    } else {
        None
    };
    match cursor_step(CursorModel::Active, event).1 {
        AdvanceModel::Answer { bindings } => if 0 <= i < steps.len() {
            with_prefix(seq![bindings], drive_model(steps, i + 1))
        } else {
            Ok(seq![bindings])
        },
        AdvanceModel::Exhausted => Ok(Seq::empty()),
        AdvanceModel::Failed { error } => Err(error),
    }
}

/// Driving the cursor pull by pull over a stream collects exactly the
/// all-answers fold: the lazy path and the eager fold agree on every stream.
pub proof fn lemma_drive_agrees_with_collect(steps: Seq<RawStep>, i: int)
    ensures
        drive_model(steps, i) == collect_model_from(steps, i),
    decreases steps.len() - i + 1,
{
    if 0 <= i < steps.len() {
        lemma_drive_agrees_with_collect(steps, i + 1);
    }
}

} // verus!
