//! Why a lowering stopped.

use crate::codegen::native::NativeType;
use crate::ir::{BinaryOperator, Literal, Scalar, Span, TypeHandle};
use vstd::prelude::*;

verus! {

/// A math function of the IR, as named in [`Info::IncompatibleMath`].
#[derive(Clone, Copy, Debug, PartialEq, Eq, Structural, Hash)]
pub enum MathFunction {
    Abs,
    Min,
    Max,
    Clamp,
    Saturate,
    Cos,
    Cosh,
    Sin,
    Sinh,
    Tan,
    Tanh,
    Acos,
    Asin,
    Atan,
    Atan2,
    Asinh,
    Acosh,
    Atanh,
    Radians,
    Degrees,
    Ceil,
    Floor,
    Round,
    Fract,
    Trunc,
    Modf,
    Frexp,
    Ldexp,
    Exp,
    Exp2,
    Log,
    Log2,
    Pow,
    Dot,
    Outer,
    Cross,
    Distance,
    Length,
    Normalize,
    FaceForward,
    Reflect,
    Refract,
    Sign,
    Fma,
    Mix,
    Step,
    SmoothStep,
    Sqrt,
    InverseSqrt,
    Inverse,
    Transpose,
    Determinant,
    CountTrailingZeros,
    CountLeadingZeros,
    CountOneBits,
    ReverseBits,
    ExtractBits,
    InsertBits,
    FindLsb,
    FindMsb,
    Pack4x8snorm,
    Pack4x8unorm,
    Pack2x16snorm,
    Pack2x16unorm,
    Pack2x16float,
    Unpack4x8snorm,
    Unpack4x8unorm,
    Unpack2x16snorm,
    Unpack2x16unorm,
    Unpack2x16float,
}

/// What was wrong with the shader.
#[derive(Debug, PartialEq, Eq)]
pub enum Info {
    IncompatibleBinary { operator: BinaryOperator, lhs: TypeHandle, rhs: Option<TypeHandle> },
    IncompatibleMath { function: MathFunction, lhs: TypeHandle, rhs: Option<TypeHandle> },
    NonConstantIndex,
    NonConstantGlobal,
    IllegalScalar(Scalar),
    IllegalLiteral(Literal),
    InvalidComponent(TypeHandle),
    NotComposable(TypeHandle),
    NotIndexable(TypeHandle),
    InvalidFloatSize(u8),
    NotPointer(TypeHandle),
    NonVectorSwizzle(TypeHandle),
    NoSuchComponent(TypeHandle, usize),
    IncorrectReturnType { expected: Option<TypeHandle>, found: Option<TypeHandle> },
    DynamicArrayWithoutPointer,
}

/// An error in the shader, with the place in the source that caused it.
#[derive(Debug, PartialEq, Eq)]
pub struct Error {
    pub info: Info,
    pub span: Span,
}

/// A module that breaks the rules every well-formed module keeps. These are
/// mistakes of whoever built the module, not of the shader's author.
#[derive(Clone, Copy, Debug, PartialEq, Eq, Structural, Hash)]
pub enum Fault {
    /// A handle that does not resolve in its arena, or an operand that does
    /// not come before the entity that uses it.
    DanglingHandle,
    /// A local variable was asked for outside any function.
    LocalInGlobalContext,
    /// A function parameter was asked for outside any function.
    ParameterInGlobalContext,
    /// A parameter, variable or struct member that does not exist.
    IndexOutOfRange,
    /// A splat of something that is not a scalar.
    SplatOfNonScalar,
    /// A function or global variable without a name.
    Unnamed,
    /// A construct whose lowering is not implemented was reached.
    NotImplemented,
    /// A struct type that was lowered without a table of member indices.
    UnmappedStruct,
    /// A size or index that does not fit the machine's integers, or a
    /// scalar without width.
    Arithmetic,
}

/// Why a lowering step stopped short.
#[derive(Debug, PartialEq, Eq)]
pub enum Halt {
    /// The shader is in error.
    Error(Error),
    /// The module is malformed.
    Fault(Fault),
    /// The target description says nothing about this native type.
    UnknownLayout(NativeType),
}

/// The halt for an error in the shader.
pub open spec fn failed(info: Info, span: Span) -> Halt {
    Halt::Error(Error { info, span })
}

/// The halt for an error in the shader.
pub fn fail(info: Info, span: Span) -> (halt: Halt)
    ensures
        halt == failed(info, span),
{
    Halt::Error(Error { info, span })
}

} // verus!
