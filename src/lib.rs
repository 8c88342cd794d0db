//! Typed, linear intermediate representation for graphing-calculator style
//! expressions: value types, position-keyed identifiers, the closed operation
//! set with its type rules, and the append-only instruction sequence.
use vstd::prelude::*;

pub mod ast;
pub mod ir;
pub mod laws;

pub use ast::{BinaryOp, Comparison, CoordinateAccess, UnaryOp};
pub use ir::{ArgId, BroadcastArg, BroadcastBuilder, IRError, IRInstructionSeq, IROp, IRType, Id};

verus! {

} // verus!
