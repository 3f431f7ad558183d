//! Lowering of literals.

use crate::codegen::error::{fail, failed, Halt, Info};
use crate::codegen::native::Inst;
use crate::codegen::{with_type, Generator, State, Typed};
use crate::ir::{undefined_span, Literal, Scalar, ScalarKind, Span, TypeInner};
use vstd::prelude::*;

verus! {

/// The constant that a literal lowers to, and the scalar type it has;
/// `None` for a literal of an abstract type.
pub open spec fn literal_parts(literal: Literal) -> Option<(Inst, Scalar)> {
    match literal {
        Literal::F64(bits) => Some(
            (Inst::ConstF64(bits), Scalar { kind: ScalarKind::Float, width: 8 }),
        ),
        Literal::F32(bits) => Some(
            (Inst::ConstF32(bits), Scalar { kind: ScalarKind::Float, width: 4 }),
        ),
        Literal::U32(value) => Some(
            (Inst::ConstU32(value), Scalar { kind: ScalarKind::Uint, width: 4 }),
        ),
        Literal::I32(value) => Some(
            (Inst::ConstI32(value), Scalar { kind: ScalarKind::Sint, width: 4 }),
        ),
        Literal::I64(value) => Some(
            (Inst::ConstI64(value), Scalar { kind: ScalarKind::Sint, width: 8 }),
        ),
        Literal::Bool(value) => Some(
            (Inst::ConstBool(value), Scalar { kind: ScalarKind::Bool, width: 1 }),
        ),
        Literal::AbstractInt(_) | Literal::AbstractFloat(_) => None,
    }
}

/// Lowers a literal: emits its constant and inserts its scalar type. A
/// literal of an abstract type is illegal.
pub open spec fn literal(s: State, span: Span, value: Literal) -> (State, Result<Typed, Halt>) {
    match literal_parts(value) {
        None => (s, Err(failed(Info::IllegalLiteral(value), span))),
        Some((inst, scalar)) => {
            let (s1, constant) = s.emit(inst);
            let (s2, ty) = s1.intern(TypeInner::Scalar(scalar), undefined_span());
            (s2, with_type(constant, ty))
        },
    }
}

impl Generator {
    /// Lowers a literal.
    pub fn build_literal(&mut self, span: Span, value: Literal) -> (lowered: Result<Typed, Halt>)
        ensures
            final(self).module.src.functions == old(self).module.src.functions,
            (final(self)@, lowered) == literal(old(self)@, span, value),
    {
        let (inst, scalar) = match value {
            Literal::F64(bits) => (
                Inst::ConstF64(bits),
                Scalar { kind: ScalarKind::Float, width: 8 },
            ),
            Literal::F32(bits) => (
                Inst::ConstF32(bits),
                Scalar { kind: ScalarKind::Float, width: 4 },
            ),
            Literal::U32(value) => (
                Inst::ConstU32(value),
                Scalar { kind: ScalarKind::Uint, width: 4 },
            ),
            Literal::I32(value) => (
                Inst::ConstI32(value),
                Scalar { kind: ScalarKind::Sint, width: 4 },
            ),
            Literal::I64(value) => (
                Inst::ConstI64(value),
                Scalar { kind: ScalarKind::Sint, width: 8 },
            ),
            Literal::Bool(value) => (
                Inst::ConstBool(value),
                Scalar { kind: ScalarKind::Bool, width: 1 },
            ),
            other => {
                return Err(fail(Info::IllegalLiteral(other), span));
            },
        };
        let constant = self.emit(inst);
        let ty = self.insert_type(TypeInner::Scalar(scalar), Span::undefined())?;
        Ok((constant, ty))
    }
}

} // verus!
