use vstd::prelude::*;

verus! {

/// Binary operators of the expression language, carried through the IR untouched.
#[derive(Debug, Clone, Copy, PartialEq, Eq, Structural, Hash)]
pub enum BinaryOp {
    Add,
    Sub,
    Mul,
    Div,
    Pow,
    Dot,
    Cross,
    Index,
}

/// Unary operators of the expression language.
#[derive(Debug, Clone, Copy, PartialEq, Eq, Structural, Hash)]
pub enum UnaryOp {
    Neg,
    Fac,
    Sqrt,
    Norm,
}

/// Comparators of the expression language.
#[derive(Debug, Clone, Copy, PartialEq, Eq, Structural, Hash)]
pub enum Comparison {
    Equal,
    Less,
    LessEqual,
    Greater,
    GreaterEqual,
}

/// Component selector of a point: `p.x`, `p.y`, `p.z`.
#[derive(Debug, Clone, Copy, PartialEq, Eq, Structural, Hash)]
pub enum CoordinateAccess {
    DotAccessX,
    DotAccessY,
    DotAccessZ,
}

} // verus!
