// Behavioural tests of the value model, the conversions, the rendering and
// the query protocol, on concrete inputs.

use scryer_bridge::session::{
    collect_answers, convert_bindings, first_answer, Advance, EngineError, QueryCursor, RawStep,
};
use scryer_bridge::term::{to_value, EngineTerm};
use scryer_bridge::value::{render, PyTerm};
use std::collections::HashMap;

fn atom(text: &str) -> EngineTerm {
    EngineTerm::Atom { text: text.to_string() }
}

fn int_term(text: &str) -> EngineTerm {
    EngineTerm::Integer { text: text.to_string() }
}

fn solution(pairs: Vec<(&str, EngineTerm)>) -> RawStep {
    RawStep::Solution {
        bindings: pairs.into_iter().map(|(n, t)| (n.to_string(), t)).collect(),
    }
}

/// A scripted stand-in for the engine's answer stream that counts how often
/// it is pulled.
struct StubStream {
    script: Vec<RawStep>,
    pulls: usize,
}

impl StubStream {
    fn new(script: Vec<RawStep>) -> StubStream {
        StubStream { script, pulls: 0 }
    }

    fn pull(&mut self) -> Option<RawStep> {
        self.pulls += 1;
        if self.script.is_empty() {
            None
        } else {
            Some(self.script.remove(0))
        }
    }
}

#[test]
fn round_trip_exact_shapes() {
    let v = PyTerm::List {
        values: vec![
            PyTerm::integer("42").unwrap(),
            PyTerm::rational("-7/3").unwrap(),
            PyTerm::Atom { value: "hello".to_string() },
            PyTerm::String { value: "hello".to_string() },
            PyTerm::Compound {
                functor: "point".to_string(),
                args: vec![PyTerm::integer("1").unwrap(), PyTerm::integer("2").unwrap()],
            },
            PyTerm::Var { name: "X".to_string() },
        ],
    };
    let t = scryer_bridge::term::to_term(&v).unwrap();
    let back = to_value(&t).unwrap();
    assert_eq!(back, v);
}

#[test]
fn numeric_precision_hundred_digits() {
    let mut digits = String::from("9");
    for i in 0..99 {
        digits.push(if i % 2 == 0 { '3' } else { '7' });
    }
    assert_eq!(digits.len(), 100);
    let v = PyTerm::integer(&digits).unwrap();
    let t = scryer_bridge::term::to_term(&v).unwrap();
    match &t {
        EngineTerm::Integer { text } => assert_eq!(text, &digits),
        other => panic!("expected an integer term, got {:?}", other),
    }
    let back = to_value(&t).unwrap();
    assert_eq!(back, PyTerm::Integer { value: digits });
}

#[test]
fn float_total_order_nan_equal() {
    let quiet = f64::NAN.to_bits();
    let other_payload = quiet | 1;
    let a = PyTerm::float_from_bits(quiet, f64::NAN.to_string());
    let b = PyTerm::float_from_bits(other_payload, "NaN".to_string());
    assert_eq!(a, b);
    let finite = PyTerm::float_from_bits((1.5f64).to_bits(), (1.5f64).to_string());
    assert_ne!(a, finite);
    assert_eq!(finite, PyTerm::float_from_bits((1.5f64).to_bits(), (1.5f64).to_string()));
}

#[test]
fn float_signed_zeros_equal() {
    let pos = PyTerm::float_from_bits((0.0f64).to_bits(), (0.0f64).to_string());
    let neg = PyTerm::float_from_bits((-0.0f64).to_bits(), (-0.0f64).to_string());
    assert_eq!(pos, neg);
}

#[test]
fn atom_string_distinction() {
    let a = to_value(&atom("abc")).unwrap();
    let s = to_value(&EngineTerm::String { text: "abc".to_string() }).unwrap();
    assert_ne!(a, s);
    assert!(matches!(a, PyTerm::Atom { .. }));
    assert!(matches!(s, PyTerm::String { .. }));
}

#[test]
fn integer_text_normalised() {
    let v = PyTerm::integer("007").unwrap();
    assert_eq!(v, PyTerm::Integer { value: "7".to_string() });
    let v = PyTerm::integer("-0").unwrap();
    assert_eq!(v, PyTerm::Integer { value: "0".to_string() });
    assert_eq!(PyTerm::integer("12x"), None);
    let w = to_value(&int_term("0042")).unwrap();
    assert_eq!(w, PyTerm::Integer { value: "42".to_string() });
}

#[test]
fn rational_text_normalised() {
    let v = PyTerm::rational("2/4").unwrap();
    assert_eq!(v, PyTerm::Rational { value: "1/2".to_string() });
    let v = PyTerm::rational("4/2").unwrap();
    assert_eq!(v, PyTerm::Rational { value: "2".to_string() });
    let v = PyTerm::rational("3/-6").unwrap();
    assert_eq!(v, PyTerm::Rational { value: "-1/2".to_string() });
    assert_eq!(PyTerm::rational("1/0"), None);
    assert_eq!(PyTerm::rational("a/b"), None);
}

#[test]
fn unmodelled_term_degrades_to_string() {
    let t = EngineTerm::Other { rendered: "Conjunction(..)".to_string() };
    let v = to_value(&t).unwrap();
    assert_eq!(v, PyTerm::String { value: "Conjunction(..)".to_string() });
}

#[test]
fn conversion_defect_is_reported() {
    let t = int_term("not a number");
    assert_eq!(to_value(&t), None);
    let inside = EngineTerm::List { items: vec![atom("fine"), int_term("bad")] };
    assert_eq!(to_value(&inside), None);
}

#[test]
fn rendering_is_prolog_like() {
    let v = PyTerm::Compound {
        functor: "f".to_string(),
        args: vec![
            PyTerm::integer("1").unwrap(),
            PyTerm::List {
                values: vec![
                    PyTerm::Atom { value: "a".to_string() },
                    PyTerm::String { value: "s".to_string() },
                ],
            },
            PyTerm::Var { name: "X".to_string() },
        ],
    };
    assert_eq!(render(&v), "f(1, [a, \"s\"], X)");
    assert_eq!(render(&PyTerm::rational("5/10").unwrap()), "1/2");
    assert_eq!(render(&PyTerm::List { values: vec![] }), "[]");
}

#[test]
fn empty_binding_vs_no_solution() {
    let solved = first_answer(Some(RawStep::True)).unwrap();
    assert_eq!(solved, Some(vec![]));
    let failed = first_answer(Some(RawStep::False)).unwrap();
    assert_eq!(failed, None);
    let ended = first_answer(None).unwrap();
    assert_eq!(ended, None);
    assert_ne!(solved, failed);
}

#[test]
fn first_answer_converts_bindings() {
    let step = solution(vec![("X", int_term("08")), ("Y", atom("ok"))]);
    let out = first_answer(Some(step)).unwrap().unwrap();
    assert_eq!(out.len(), 2);
    assert_eq!(out[0], ("X".to_string(), PyTerm::Integer { value: "8".to_string() }));
    assert_eq!(out[1], ("Y".to_string(), PyTerm::Atom { value: "ok".to_string() }));
}

#[test]
fn first_answer_exception_renders_term() {
    let step = RawStep::Exception {
        term: EngineTerm::Compound { functor: "oops".to_string(), args: vec![atom("why")] },
    };
    match first_answer(Some(step)) {
        Err(EngineError::Exception { message }) => {
            assert_eq!(message, "Prolog exception: oops(why)");
        },
        other => panic!("expected an exception error, got {:?}", other),
    }
}

#[test]
fn first_answer_error_term_is_distinct_kind() {
    let step = RawStep::ErrorTerm { term: atom("type_error") };
    match first_answer(Some(step)) {
        Err(EngineError::ErrorTerm { message }) => {
            assert_eq!(message, "Prolog error term: type_error");
        },
        other => panic!("expected an error-term error, got {:?}", other),
    }
}

#[test]
fn first_answer_defect_in_binding() {
    let step = solution(vec![("X", int_term("bad"))]);
    assert_eq!(first_answer(Some(step)), Err(EngineError::NumericDefect));
}

#[test]
fn ordering_preserved_with_duplicates() {
    let s1 = solution(vec![("X", int_term("1"))]);
    let s2 = solution(vec![("X", int_term("2"))]);
    let s3 = solution(vec![("X", int_term("1"))]);
    let out = collect_answers(&vec![s1, s2, s3]).unwrap();
    assert_eq!(out.len(), 3);
    assert_eq!(out[0], vec![("X".to_string(), PyTerm::Integer { value: "1".to_string() })]);
    assert_eq!(out[1], vec![("X".to_string(), PyTerm::Integer { value: "2".to_string() })]);
    assert_eq!(out[2], out[0]);
}

#[test]
fn collect_stops_at_failure_event() {
    let steps = vec![
        RawStep::True,
        solution(vec![("X", atom("a"))]),
        RawStep::False,
        solution(vec![("X", atom("never"))]),
    ];
    let out = collect_answers(&steps).unwrap();
    assert_eq!(out.len(), 2);
    assert_eq!(out[0], vec![]);
    assert_eq!(out[1], vec![("X".to_string(), PyTerm::Atom { value: "a".to_string() })]);
}

#[test]
fn exception_supersedes_collected_answers() {
    let steps = vec![
        solution(vec![("X", int_term("1"))]),
        solution(vec![("X", int_term("2"))]),
        RawStep::Exception { term: atom("boom") },
        solution(vec![("X", int_term("3"))]),
    ];
    match collect_answers(&steps) {
        Err(EngineError::Exception { message }) => {
            assert_eq!(message, "Prolog exception: boom");
        },
        other => panic!("expected the exception to supersede the answers, got {:?}", other),
    }
}

#[test]
fn convert_bindings_keeps_names_and_order() {
    let raw = vec![
        ("B".to_string(), atom("second")),
        ("A".to_string(), atom("first")),
    ];
    let out = convert_bindings(&raw).unwrap();
    assert_eq!(out[0].0, "B");
    assert_eq!(out[1].0, "A");
}

#[test]
fn cursor_walks_a_stream() {
    let mut stream = StubStream::new(vec![
        RawStep::True,
        solution(vec![("X", int_term("5"))]),
        RawStep::False,
    ]);
    let mut cursor = QueryCursor::new();
    let mut answers: Vec<Vec<(String, PyTerm)>> = Vec::new();
    loop {
        let event = if cursor.wants_event() { stream.pull() } else { None };
        match cursor.next(event) {
            Advance::Answer { bindings } => answers.push(bindings),
            Advance::Exhausted => break,
            Advance::Failed { error } => panic!("unexpected failure: {:?}", error),
        }
    }
    assert_eq!(answers.len(), 2);
    assert_eq!(answers[0], vec![]);
    assert_eq!(answers[1], vec![("X".to_string(), PyTerm::Integer { value: "5".to_string() })]);
    assert_eq!(stream.pulls, 3);
}

#[test]
fn terminal_cursor_is_idempotent_without_rerunning() {
    let mut stream = StubStream::new(vec![RawStep::False]);
    let mut cursor = QueryCursor::new();
    assert!(cursor.wants_event());
    let first = cursor.next(stream.pull());
    assert_eq!(first, Advance::Exhausted);
    let pulls_at_terminal = stream.pulls;
    for _ in 0..3 {
        assert!(!cursor.wants_event());
        assert_eq!(cursor.next(None), Advance::Exhausted);
    }
    assert_eq!(stream.pulls, pulls_at_terminal);
}

#[test]
fn errored_cursor_repeats_its_error() {
    let mut stream = StubStream::new(vec![RawStep::ErrorTerm { term: atom("bad") }]);
    let mut cursor = QueryCursor::new();
    let first = cursor.next(stream.pull());
    let expected = EngineError::ErrorTerm { message: "Prolog error term: bad".to_string() };
    assert_eq!(first, Advance::Failed { error: expected.clone() });
    let pulls_at_terminal = stream.pulls;
    assert!(!cursor.wants_event());
    assert_eq!(cursor.next(None), Advance::Failed { error: expected });
    assert_eq!(stream.pulls, pulls_at_terminal);
}

#[test]
fn float_hashing_is_total_and_deterministic() {
    let quiet = PyTerm::float_from_bits(f64::NAN.to_bits(), f64::NAN.to_string());
    let payload = PyTerm::float_from_bits(f64::NAN.to_bits() | 7, "NaN".to_string());
    let mut table: HashMap<PyTerm, &'static str> = HashMap::new();
    table.insert(quiet, "present");
    assert_eq!(table.get(&payload), Some(&"present"));
    let finite = PyTerm::float_from_bits((2.0f64).to_bits(), (2.0f64).to_string());
    assert_eq!(table.get(&finite), None);
}

#[test]
fn float_round_trips_through_terms() {
    let v = PyTerm::float_from_bits((0.25f64).to_bits(), (0.25f64).to_string());
    let t = scryer_bridge::term::to_term(&v).unwrap();
    assert_eq!(to_value(&t).unwrap(), v);
    assert_eq!(render(&v), "0.25");
    let nan = PyTerm::float_from_bits(f64::NAN.to_bits() | 3, "ignored".to_string());
    assert_eq!(render(&nan), "NaN");
    let t = scryer_bridge::term::to_term(&nan).unwrap();
    assert_eq!(to_value(&t).unwrap(), nan);
}

#[test]
fn fallback_is_observable() {
    let clean = EngineTerm::List { items: vec![atom("a"), int_term("1")] };
    assert!(!scryer_bridge::term::has_conversion_fallback(&clean));
    let degraded = EngineTerm::Compound {
        functor: "wrap".to_string(),
        args: vec![EngineTerm::Other { rendered: "opaque".to_string() }],
    };
    assert!(scryer_bridge::term::has_conversion_fallback(&degraded));
}
