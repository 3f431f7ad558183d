//! Lowering of splats.

use crate::codegen::error::{Fault, Halt};
use crate::codegen::expressions::location::{frame_of, rank, Frame, FunctionState};
use crate::codegen::expressions::operand;
use crate::codegen::native::{is_constant, Inst, NativeType, NativeValue};
use crate::codegen::types::lower_cached_type;
use crate::codegen::{Generator, State, Typed};
use crate::ir::{ExprHandle, Scalar, Span, TypeHandle, TypeInner, VectorSize};
use vstd::prelude::*;

verus! {

/// Puts `value` into the lanes `i..lanes` of `vector`.
pub open spec fn splat_lanes(s: State, vector: NativeValue, value: NativeValue, i: u32, lanes: u32) -> (
    State,
    NativeValue,
)
    decreases lanes - i,
{
    if i >= lanes {
        (s, vector)
    } else {
        let (s1, at) = s.emit(Inst::ConstU64(i as u64));
        let (s2, next) = s1.emit(Inst::InsertElement { vector, element: value, index: at });
        splat_lanes(s2, next, value, (i + 1) as u32, lanes)
    }
}

/// Lowers the splat of `value`, of the type `ty`, over `size` lanes.
///
/// The type must be a scalar: anything else is a fault. The result has the
/// vector type of `size` lanes of the scalar. A compile-time constant is
/// splat into a constant vector; any other value is put into the lanes of
/// a vector one by one.
pub open spec fn splat_value(
    s: State,
    span: Span,
    value: NativeValue,
    ty: TypeHandle,
    size: VectorSize,
) -> (State, Result<Typed, Halt>) {
    match s.inner(ty) {
        Err(halt) => (s, Err(halt)),
        Ok(TypeInner::Scalar(scalar)) => {
            let (s1, interned) = s.intern(TypeInner::Vector { size, scalar }, s.type_span(ty));
            if interned is Err {
                (s1, Err(interned->Err_0))
            } else if is_constant(s1.code, value) {
                let result = interned->Ok_0;
                let (s2, vector) = s1.emit(Inst::ConstVector { element: value, len: size.count() });
                (s2, Ok((vector, result)))
            } else {
                let result = interned->Ok_0;
                let (s2, lowered) = lower_cached_type(s1, span, ty);
                match lowered {
                    Err(halt) => (s2, Err(halt)),
                    Ok(element) => {
                        let (s3, undef) = s2.emit(
                            Inst::Undef(
                                NativeType::Vector {
                                    element: Box::new(element),
                                    len: size.count(),
                                },
                            ),
                        );
                        let (s4, vector) = splat_lanes(s3, undef, value, 0, size.count());
                        (s4, Ok((vector, result)))
                    },
                }
            }
        },
        Ok(_) => (s, Err(Halt::Fault(Fault::SplatOfNonScalar))),
    }
}

/// Lowers the splat of the expression `value`, an operand of the
/// expression `bound`, over `size` lanes.
pub open spec fn splat(
    s: State,
    loc: Option<Frame>,
    bound: ExprHandle,
    span: Span,
    value: ExprHandle,
    size: VectorSize,
) -> (State, Result<Typed, Halt>)
    decreases rank(loc), bound.0, 0nat, 1nat,
{
    let (s1, lowered) = operand(s, loc, bound, value);
    match lowered {
        Err(halt) => (s1, Err(halt)),
        Ok((native, ty)) => splat_value(s1, span, native, ty, size),
    }
}

impl Generator {
    /// Lowers the splat of `value`, of the type `ty`, over `size` lanes.
    pub fn build_splat_value(
        &mut self,
        span: Span,
        value: NativeValue,
        ty: TypeHandle,
        size: VectorSize,
    ) -> (lowered: Result<Typed, Halt>)
        ensures
            final(self).module.src.functions == old(self).module.src.functions,
            (final(self)@, lowered) == splat_value(old(self)@, span, value, ty, size),
    {
        let ty_span = self.module.src.types.get_span(ty);
        let scalar: Scalar = match self.type_inner(ty)? {
            TypeInner::Scalar(scalar) => *scalar,
            _ => {
                return Err(Halt::Fault(Fault::SplatOfNonScalar));
            },
        };
        let result = self.insert_type(TypeInner::Vector { size, scalar }, ty_span)?;
        let lanes: u32 = size.lanes();
        if self.is_constant(value) {
            let vector = self.emit(Inst::ConstVector { element: value, len: lanes });
            Ok((vector, result))
        } else {
            let element = self.eval_cached_type(span, ty)?;
            let undef = self.emit(Inst::Undef(NativeType::vector(element, lanes)));
            let ghost start = self@;
            let mut vector = undef;
            let mut i: u32 = 0;
            while i < lanes
                invariant
                    self.module.src.functions == old(self).module.src.functions,
                    i <= lanes,
                    lanes <= 4,
                    splat_lanes(self@, vector, value, i, lanes) == splat_lanes(
                        start,
                        undef,
                        value,
                        0,
                        lanes,
                    ),
                decreases lanes - i,
            {
                let at = self.emit(Inst::ConstU64(i as u64));
                vector = self.emit(Inst::InsertElement { vector, element: value, index: at });
                i += 1;
            }
            Ok((vector, result))
        }
    }

    /// Lowers the splat of the expression `value`, an operand of the
    /// expression `bound`, over `size` lanes.
    pub fn build_splat(
        &mut self,
        location: Option<&FunctionState>,
        bound: ExprHandle,
        span: Span,
        value: ExprHandle,
        size: VectorSize,
    ) -> (lowered: Result<Typed, Halt>)
        ensures
            final(self).module.src.functions == old(self).module.src.functions,
            (final(self)@, lowered) == splat(
                old(self)@,
                frame_of(location),
                bound,
                span,
                value,
                size,
            ),
        decreases rank(frame_of(location)), bound.0, 0nat, 1nat,
    {
        let (native, ty) = self.eval_operand(location, bound, value)?;
        self.build_splat_value(span, native, ty, size)
    }
}

} // verus!
