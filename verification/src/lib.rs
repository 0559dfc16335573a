//! An embedding layer for a Prolog engine: a host-side value model of engine
//! terms, lossless conversion in both directions, a deterministic text
//! rendering, and the decision logic of a lazy, exception-safe query cursor.

pub mod float_order;
pub mod numtext;
pub mod session;
pub mod term;
pub mod value;
