//! Lowering of loads and stores.
//!
//! A matrix is held in memory column by column, each column aligned as the
//! target prefers for a vector of its rows. Loading and storing one goes
//! through the column-major matrix instructions, which take the distance
//! from one column to the next, counted in elements.

use crate::codegen::error::{fail, failed, Fault, Halt, Info};
use crate::codegen::expressions::location::{frame_of, rank, Frame, FunctionState};
use crate::codegen::expressions::operand;
use crate::codegen::native::{Inst, NativeType, NativeValue};
use crate::codegen::target::preferred_alignment;
use crate::codegen::types::{flat_len, lower_cached_type, pointee, scalar_type};
use crate::codegen::{Generator, State, Typed};
use crate::ir::{ExprHandle, Scalar, Span, TypeHandle, TypeInner, VectorSize};
use vstd::prelude::*;

verus! {

/// The native scalar of a matrix of `scalar` with `rows` rows, and the
/// distance between its columns in memory, in elements: the preferred
/// alignment of a column, divided by the scalar's width.
pub open spec fn column_stride(s: State, span: Span, scalar: Scalar, rows: VectorSize) -> Result<
    (NativeType, u32),
    Halt,
> {
    match scalar_type(span, scalar) {
        Err(halt) => Err(halt),
        Ok(element) => {
            let column = NativeType::Vector { element: Box::new(element), len: rows.count() };
            match preferred_alignment(s.layouts, column) {
                None => Err(Halt::UnknownLayout(column)),
                Some(alignment) => if scalar.width == 0 {
                    Err(Halt::Fault(Fault::Arithmetic))
                } else {
                    Ok((element, (alignment / (scalar.width as u32)) as u32))
                },
            }
        },
    }
}

/// Lowers a load through `pointer`, a value of the type `ty`.
///
/// The type must be a pointer. A matrix is read by the column-major load,
/// anything else by a plain load of the pointee's native type. The result
/// has the pointee's type.
pub open spec fn load_from(s: State, span: Span, pointer: NativeValue, ty: TypeHandle) -> (
    State,
    Result<Typed, Halt>,
) {
    let (s1, target) = pointee(s, ty);
    match target {
        Err(halt) => (s1, Err(halt)),
        Ok(None) => (s1, Err(failed(Info::NotPointer(ty), span))),
        Ok(Some((inner, _))) => match s1.inner(inner) {
            Err(halt) => (s1, Err(halt)),
            Ok(TypeInner::Matrix { rows, columns, scalar }) => match column_stride(
                s1,
                span,
                scalar,
                rows,
            ) {
                Err(halt) => (s1, Err(halt)),
                Ok((element, stride)) => {
                    let (s2, distance) = s1.emit(Inst::ConstU64(stride as u64));
                    let (s3, volatile) = s2.emit(Inst::ConstBool(false));
                    let (s4, r) = s3.emit(Inst::ConstU32(rows.count()));
                    let (s5, c) = s4.emit(Inst::ConstU32(columns.count()));
                    let (s6, value) = s5.emit(
                        Inst::ColumnMajorLoad {
                            result: NativeType::Vector {
                                element: Box::new(element),
                                len: (columns.count() * rows.count()) as u32,
                            },
                            pointer,
                            stride: distance,
                            volatile,
                            rows: r,
                            columns: c,
                        },
                    );
                    (s6, Ok((value, inner)))
                },
            },
            Ok(_) => {
                let (s2, lowered) = lower_cached_type(s1, span, inner);
                match lowered {
                    Err(halt) => (s2, Err(halt)),
                    Ok(native) => {
                        let (s3, value) = s2.emit(Inst::Load { ty: native, pointer });
                        (s3, Ok((value, inner)))
                    },
                }
            },
        },
    }
}

/// Lowers a store of `value`, of the type `ty`, through `pointer`: the
/// column-major store for a matrix, a plain store for anything else.
pub open spec fn store_to(
    s: State,
    span: Span,
    pointer: NativeValue,
    value: NativeValue,
    ty: TypeHandle,
) -> (State, Result<(), Halt>) {
    match s.inner(ty) {
        Err(halt) => (s, Err(halt)),
        Ok(TypeInner::Matrix { rows, columns, scalar }) => match column_stride(
            s,
            span,
            scalar,
            rows,
        ) {
            Err(halt) => (s, Err(halt)),
            Ok((_, stride)) => {
                let (s1, distance) = s.emit(Inst::ConstU64(stride as u64));
                let (s2, volatile) = s1.emit(Inst::ConstBool(false));
                let (s3, r) = s2.emit(Inst::ConstU32(rows.count()));
                let (s4, c) = s3.emit(Inst::ConstU32(columns.count()));
                let (s5, _) = s4.emit(
                    Inst::ColumnMajorStore {
                        value,
                        pointer,
                        stride: distance,
                        volatile,
                        rows: r,
                        columns: c,
                    },
                );
                (s5, Ok(()))
            },
        },
        Ok(_) => {
            let (s1, _) = s.emit(Inst::Store { value, pointer });
            (s1, Ok(()))
        },
    }
}

/// Lowers the load of the expression `pointer`, an operand of the
/// expression `bound`.
pub open spec fn load(s: State, loc: Option<Frame>, bound: ExprHandle, span: Span, pointer: ExprHandle) -> (
    State,
    Result<Typed, Halt>,
)
    decreases rank(loc), bound.0, 0nat, 1nat,
{
    let (s1, lowered) = operand(s, loc, bound, pointer);
    match lowered {
        Err(halt) => (s1, Err(halt)),
        Ok((value, ty)) => load_from(s1, span, value, ty),
    }
}

/// Lowers a store of the expression `value` through `pointer`.
pub open spec fn store(s: State, loc: Option<Frame>, span: Span, pointer: NativeValue, value: ExprHandle) -> (
    State,
    Result<(), Halt>,
) {
    let (s1, lowered) = crate::codegen::expressions::eval_cached(s, loc, value);
    match lowered {
        Err(halt) => (s1, Err(halt)),
        Ok((native, ty)) => store_to(s1, span, pointer, native, ty),
    }
}

impl Generator {
    /// The native scalar of a matrix and the distance between its columns
    /// in memory, in elements.
    pub fn eval_column_stride(&self, span: Span, scalar: Scalar, rows: VectorSize) -> (stride: Result<
        (NativeType, u32),
        Halt,
    >)
        ensures
            stride == column_stride(self@, span, scalar, rows),
    {
        let element = self.eval_scalar_type(span, scalar)?;
        let column = NativeType::vector(element.duplicate(), rows.lanes());
        match self.target_info.preferred_alignment_of(&column) {
            None => Err(Halt::UnknownLayout(column)),
            Some(alignment) => {
                if scalar.width == 0 {
                    Err(Halt::Fault(Fault::Arithmetic))
                } else {
                    Ok((element, alignment / (scalar.width as u32)))
                }
            },
        }
    }

    /// Lowers a load through `pointer`, a value of the type `ty`.
    pub fn build_load_from(&mut self, span: Span, pointer: NativeValue, ty: TypeHandle) -> (lowered:
        Result<Typed, Halt>)
        ensures
            final(self).module.src.functions == old(self).module.src.functions,
            (final(self)@, lowered) == load_from(old(self)@, span, pointer, ty),
    {
        let inner: TypeHandle = match self.get_pointee(ty)? {
            Some((inner, _)) => inner,
            None => {
                return Err(fail(Info::NotPointer(ty), span));
            },
        };
        match self.type_inner(inner)? {
            TypeInner::Matrix { rows, columns, scalar } => {
                let rows: VectorSize = *rows;
                let columns: VectorSize = *columns;
                let (element, stride) = self.eval_column_stride(span, *scalar, rows)?;
                let distance = self.emit(Inst::ConstU64(stride as u64));
                let volatile = self.emit(Inst::ConstBool(false));
                let r = self.emit(Inst::ConstU32(rows.lanes()));
                let c = self.emit(Inst::ConstU32(columns.lanes()));
                let len: u32 = flat_len(columns, rows);
                let value = self.emit(
                    Inst::ColumnMajorLoad {
                        result: NativeType::vector(element, len),
                        pointer,
                        stride: distance,
                        volatile,
                        rows: r,
                        columns: c,
                    },
                );
                Ok((value, inner))
            },
            _ => {
                let native = self.eval_cached_type(span, inner)?;
                let value = self.emit(Inst::Load { ty: native, pointer });
                Ok((value, inner))
            },
        }
    }

    /// Lowers a store of `value`, of the type `ty`, through `pointer`.
    pub fn build_store_to(
        &mut self,
        span: Span,
        pointer: NativeValue,
        value: NativeValue,
        ty: TypeHandle,
    ) -> (stored: Result<(), Halt>)
        ensures
            final(self).module.src.functions == old(self).module.src.functions,
            (final(self)@, stored) == store_to(old(self)@, span, pointer, value, ty),
    {
        match self.type_inner(ty)? {
            TypeInner::Matrix { rows, columns, scalar } => {
                let rows: VectorSize = *rows;
                let columns: VectorSize = *columns;
                let (_, stride) = self.eval_column_stride(span, *scalar, rows)?;
                let distance = self.emit(Inst::ConstU64(stride as u64));
                let volatile = self.emit(Inst::ConstBool(false));
                let r = self.emit(Inst::ConstU32(rows.lanes()));
                let c = self.emit(Inst::ConstU32(columns.lanes()));
                self.emit(
                    Inst::ColumnMajorStore {
                        value,
                        pointer,
                        stride: distance,
                        volatile,
                        rows: r,
                        columns: c,
                    },
                );
                Ok(())
            },
            _ => {
                self.emit(Inst::Store { value, pointer });
                Ok(())
            },
        }
    }

    /// Lowers the load of the expression `pointer`, an operand of the
    /// expression `bound`.
    pub fn build_load(
        &mut self,
        location: Option<&FunctionState>,
        bound: ExprHandle,
        span: Span,
        pointer: ExprHandle,
    ) -> (lowered: Result<Typed, Halt>)
        ensures
            final(self).module.src.functions == old(self).module.src.functions,
            (final(self)@, lowered) == load(old(self)@, frame_of(location), bound, span, pointer),
        decreases rank(frame_of(location)), bound.0, 0nat, 1nat,
    {
        let (value, ty) = self.eval_operand(location, bound, pointer)?;
        self.build_load_from(span, value, ty)
    }

    /// Lowers a store of the expression `value` through `pointer`.
    pub fn build_store(
        &mut self,
        location: Option<&FunctionState>,
        span: Span,
        pointer: NativeValue,
        value: ExprHandle,
    ) -> (stored: Result<(), Halt>)
        ensures
            final(self).module.src.functions == old(self).module.src.functions,
            (final(self)@, stored) == store(old(self)@, frame_of(location), span, pointer, value),
    {
        let (native, ty) = self.eval_cached_expr(location, value)?;
        self.build_store_to(span, pointer, native, ty)
    }
}

} // verus!
