//! Lowering of binary operators.
//!
//! Both operands of an operator must have the same source type. The one
//! exception is the product of a matrix with a matrix or a vector whose
//! dimensions fit: it lowers to a matrix multiplication.

use crate::codegen::error::{fail, failed, Halt, Info};
use crate::codegen::expressions::location::{frame_of, rank, Frame, FunctionState};
use crate::codegen::expressions::operand;
use crate::codegen::native::{Inst, NativeValue, Opcode};
use crate::codegen::types::{lower_cached_type, vector_type};
use crate::codegen::{Generator, State, Typed};
use crate::ir::{BinaryOperator, ExprHandle, Scalar, ScalarKind, Span, TypeHandle, TypeInner};
use vstd::prelude::*;

verus! {

/// The instruction that `op` lowers to on operands of the scalar kind
/// `kind`; `None` where the operator does not apply to the kind.
///
/// Arithmetic and comparisons take floats and integers, with separate
/// instructions for signed and unsigned integers where they differ;
/// equality also takes booleans, which the ordered comparisons treat as
/// unsigned. Bitwise operators and shifts take integers only, logical
/// operators booleans only.
pub open spec fn instruction(op: BinaryOperator, kind: ScalarKind) -> Option<Opcode> {
    match (op, kind) {
        (BinaryOperator::Add, ScalarKind::Float) => Some(Opcode::FAdd),
        (BinaryOperator::Add, ScalarKind::Sint | ScalarKind::Uint) => Some(Opcode::Add),
        (BinaryOperator::Subtract, ScalarKind::Float) => Some(Opcode::FSub),
        (BinaryOperator::Subtract, ScalarKind::Sint | ScalarKind::Uint) => Some(Opcode::Sub),
        (BinaryOperator::Multiply, ScalarKind::Float) => Some(Opcode::FMul),
        (BinaryOperator::Multiply, ScalarKind::Sint | ScalarKind::Uint) => Some(Opcode::Mul),
        (BinaryOperator::Divide, ScalarKind::Float) => Some(Opcode::FDiv),
        (BinaryOperator::Divide, ScalarKind::Sint) => Some(Opcode::SDiv),
        (BinaryOperator::Divide, ScalarKind::Uint) => Some(Opcode::UDiv),
        (BinaryOperator::Modulo, ScalarKind::Float) => Some(Opcode::FRem),
        (BinaryOperator::Modulo, ScalarKind::Sint) => Some(Opcode::SRem),
        (BinaryOperator::Modulo, ScalarKind::Uint) => Some(Opcode::URem),
        (
            BinaryOperator::Equal,
            ScalarKind::Sint | ScalarKind::Uint | ScalarKind::Bool,
        ) => Some(Opcode::ICmpEq),
        (BinaryOperator::Equal, ScalarKind::Float) => Some(Opcode::FCmpOeq),
        (
            BinaryOperator::NotEqual,
            ScalarKind::Sint | ScalarKind::Uint | ScalarKind::Bool,
        ) => Some(Opcode::ICmpNe),
        (BinaryOperator::NotEqual, ScalarKind::Float) => Some(Opcode::FCmpUne),
        (BinaryOperator::Less, ScalarKind::Uint | ScalarKind::Bool) => Some(Opcode::ICmpUlt),
        (BinaryOperator::Less, ScalarKind::Sint) => Some(Opcode::ICmpSlt),
        (BinaryOperator::Less, ScalarKind::Float) => Some(Opcode::FCmpOlt),
        (BinaryOperator::LessEqual, ScalarKind::Uint | ScalarKind::Bool) => Some(Opcode::ICmpUle),
        (BinaryOperator::LessEqual, ScalarKind::Sint) => Some(Opcode::ICmpSle),
        (BinaryOperator::LessEqual, ScalarKind::Float) => Some(Opcode::FCmpOle),
        (BinaryOperator::Greater, ScalarKind::Uint | ScalarKind::Bool) => Some(Opcode::ICmpUgt),
        (BinaryOperator::Greater, ScalarKind::Sint) => Some(Opcode::ICmpSgt),
        (BinaryOperator::Greater, ScalarKind::Float) => Some(Opcode::FCmpOgt),
        (
            BinaryOperator::GreaterEqual,
            ScalarKind::Uint | ScalarKind::Bool,
        ) => Some(Opcode::ICmpUge),
        (BinaryOperator::GreaterEqual, ScalarKind::Sint) => Some(Opcode::ICmpSge),
        (BinaryOperator::GreaterEqual, ScalarKind::Float) => Some(Opcode::FCmpOge),
        (BinaryOperator::And, ScalarKind::Sint | ScalarKind::Uint) => Some(Opcode::And),
        (BinaryOperator::ExclusiveOr, ScalarKind::Sint | ScalarKind::Uint) => Some(Opcode::Xor),
        (BinaryOperator::InclusiveOr, ScalarKind::Sint | ScalarKind::Uint) => Some(Opcode::Or),
        (BinaryOperator::LogicalAnd, ScalarKind::Bool) => Some(Opcode::And),
        (BinaryOperator::LogicalOr, ScalarKind::Bool) => Some(Opcode::Or),
        (BinaryOperator::ShiftLeft, ScalarKind::Sint | ScalarKind::Uint) => Some(Opcode::Shl),
        (BinaryOperator::ShiftRight, ScalarKind::Uint) => Some(Opcode::LShr),
        (BinaryOperator::ShiftRight, ScalarKind::Sint) => Some(Opcode::AShr),
        _ => None,
    }
}

/// The instruction that `op` lowers to on operands of the scalar kind
/// `kind`.
pub fn select_instruction(op: BinaryOperator, kind: ScalarKind) -> (opcode: Option<Opcode>)
    ensures
        opcode == instruction(op, kind),
{
    match (op, kind) {
        (BinaryOperator::Add, ScalarKind::Float) => Some(Opcode::FAdd),
        (BinaryOperator::Add, ScalarKind::Sint | ScalarKind::Uint) => Some(Opcode::Add),
        (BinaryOperator::Subtract, ScalarKind::Float) => Some(Opcode::FSub),
        (BinaryOperator::Subtract, ScalarKind::Sint | ScalarKind::Uint) => Some(Opcode::Sub),
        (BinaryOperator::Multiply, ScalarKind::Float) => Some(Opcode::FMul),
        (BinaryOperator::Multiply, ScalarKind::Sint | ScalarKind::Uint) => Some(Opcode::Mul),
        (BinaryOperator::Divide, ScalarKind::Float) => Some(Opcode::FDiv),
        (BinaryOperator::Divide, ScalarKind::Sint) => Some(Opcode::SDiv),
        (BinaryOperator::Divide, ScalarKind::Uint) => Some(Opcode::UDiv),
        (BinaryOperator::Modulo, ScalarKind::Float) => Some(Opcode::FRem),
        (BinaryOperator::Modulo, ScalarKind::Sint) => Some(Opcode::SRem),
        (BinaryOperator::Modulo, ScalarKind::Uint) => Some(Opcode::URem),
        (
            BinaryOperator::Equal,
            ScalarKind::Sint | ScalarKind::Uint | ScalarKind::Bool,
        ) => Some(Opcode::ICmpEq),
        (BinaryOperator::Equal, ScalarKind::Float) => Some(Opcode::FCmpOeq),
        (
            BinaryOperator::NotEqual,
            ScalarKind::Sint | ScalarKind::Uint | ScalarKind::Bool,
        ) => Some(Opcode::ICmpNe),
        (BinaryOperator::NotEqual, ScalarKind::Float) => Some(Opcode::FCmpUne),
        (BinaryOperator::Less, ScalarKind::Uint | ScalarKind::Bool) => Some(Opcode::ICmpUlt),
        (BinaryOperator::Less, ScalarKind::Sint) => Some(Opcode::ICmpSlt),
        (BinaryOperator::Less, ScalarKind::Float) => Some(Opcode::FCmpOlt),
        (BinaryOperator::LessEqual, ScalarKind::Uint | ScalarKind::Bool) => Some(Opcode::ICmpUle),
        (BinaryOperator::LessEqual, ScalarKind::Sint) => Some(Opcode::ICmpSle),
        (BinaryOperator::LessEqual, ScalarKind::Float) => Some(Opcode::FCmpOle),
        (BinaryOperator::Greater, ScalarKind::Uint | ScalarKind::Bool) => Some(Opcode::ICmpUgt),
        (BinaryOperator::Greater, ScalarKind::Sint) => Some(Opcode::ICmpSgt),
        (BinaryOperator::Greater, ScalarKind::Float) => Some(Opcode::FCmpOgt),
        (
            BinaryOperator::GreaterEqual,
            ScalarKind::Uint | ScalarKind::Bool,
        ) => Some(Opcode::ICmpUge),
        (BinaryOperator::GreaterEqual, ScalarKind::Sint) => Some(Opcode::ICmpSge),
        (BinaryOperator::GreaterEqual, ScalarKind::Float) => Some(Opcode::FCmpOge),
        (BinaryOperator::And, ScalarKind::Sint | ScalarKind::Uint) => Some(Opcode::And),
        (BinaryOperator::ExclusiveOr, ScalarKind::Sint | ScalarKind::Uint) => Some(Opcode::Xor),
        (BinaryOperator::InclusiveOr, ScalarKind::Sint | ScalarKind::Uint) => Some(Opcode::Or),
        (BinaryOperator::LogicalAnd, ScalarKind::Bool) => Some(Opcode::And),
        (BinaryOperator::LogicalOr, ScalarKind::Bool) => Some(Opcode::Or),
        (BinaryOperator::ShiftLeft, ScalarKind::Sint | ScalarKind::Uint) => Some(Opcode::Shl),
        (BinaryOperator::ShiftRight, ScalarKind::Uint) => Some(Opcode::LShr),
        (BinaryOperator::ShiftRight, ScalarKind::Sint) => Some(Opcode::AShr),
        _ => None,
    }
}

/// The error for an operator that does not apply to operands of the type
/// `ty`, whose scalar is `scalar`: an abstract scalar is illegal as such,
/// any other is incompatible with the operator.
pub open spec fn inapplicable(op: BinaryOperator, scalar: Scalar, ty: TypeHandle, span: Span) -> Halt {
    match scalar.kind {
        ScalarKind::AbstractInt | ScalarKind::AbstractFloat => failed(
            Info::IllegalScalar(scalar),
            span,
        ),
        _ => failed(Info::IncompatibleBinary { operator: op, lhs: ty, rhs: None }, span),
    }
}

fn inapplicable_halt(op: BinaryOperator, scalar: Scalar, ty: TypeHandle, span: Span) -> (halt: Halt)
    ensures
        halt == inapplicable(op, scalar, ty, span),
{
    match scalar.kind {
        ScalarKind::AbstractInt | ScalarKind::AbstractFloat => fail(
            Info::IllegalScalar(scalar),
            span,
        ),
        _ => fail(Info::IncompatibleBinary { operator: op, lhs: ty, rhs: None }, span),
    }
}

/// Applies `opcode` to the columns `column..columns` of two matrices and
/// puts each result into the same column of `result`.
pub open spec fn matrix_columns(
    s: State,
    opcode: Opcode,
    lhs: NativeValue,
    rhs: NativeValue,
    result: NativeValue,
    column: u32,
    columns: u32,
) -> (State, NativeValue)
    decreases columns - column,
{
    if column >= columns {
        (s, result)
    } else {
        let (s1, left) = s.emit(Inst::ExtractValue { aggregate: lhs, index: column });
        let (s2, right) = s1.emit(Inst::ExtractValue { aggregate: rhs, index: column });
        let (s3, both) = s2.emit(Inst::Binary { op: opcode, lhs: left, rhs: right });
        let (s4, next) = s3.emit(
            Inst::InsertValue { aggregate: result, element: both, index: column },
        );
        matrix_columns(s4, opcode, lhs, rhs, next, (column + 1) as u32, columns)
    }
}

/// Lowers `op` on two lowered operands, component by component.
///
/// Operands of different types are incompatible, and then nothing is
/// emitted. On scalars and vectors the operator is one instruction; on
/// matrices it is applied column by column. The result has the type of
/// the operands.
pub open spec fn component_wise(
    s: State,
    span: Span,
    op: BinaryOperator,
    lhs: Typed,
    rhs: Typed,
) -> (State, Result<Typed, Halt>) {
    let ty = lhs.1;
    if lhs.1 != rhs.1 {
        (
            s,
            Err(
                failed(
                    Info::IncompatibleBinary { operator: op, lhs: lhs.1, rhs: Some(rhs.1) },
                    span,
                ),
            ),
        )
    } else {
        match s.inner(ty) {
            Err(halt) => (s, Err(halt)),
            Ok(TypeInner::Scalar(scalar)) | Ok(TypeInner::Vector { scalar, .. }) => match instruction(
                op,
                scalar.kind,
            ) {
                None => (s, Err(inapplicable(op, scalar, ty, span))),
                Some(opcode) => {
                    let (s1, value) = s.emit(Inst::Binary { op: opcode, lhs: lhs.0, rhs: rhs.0 });
                    (s1, Ok((value, ty)))
                },
            },
            Ok(TypeInner::Matrix { columns, scalar, .. }) => match instruction(op, scalar.kind) {
                None => (s, Err(inapplicable(op, scalar, ty, span))),
                Some(opcode) => {
                    let (s1, lowered) = lower_cached_type(s, span, ty);
                    match lowered {
                        Err(halt) => (s1, Err(halt)),
                        Ok(native) => {
                            let (s2, undef) = s1.emit(Inst::Undef(native));
                            let (s3, value) = matrix_columns(
                                s2,
                                opcode,
                                lhs.0,
                                rhs.0,
                                undef,
                                0,
                                columns.count(),
                            );
                            (s3, Ok((value, ty)))
                        },
                    }
                },
            },
            Ok(_) => (
                s,
                Err(failed(Info::IncompatibleBinary { operator: op, lhs: ty, rhs: None }, span)),
            ),
        }
    }
}

/// Lowers the product of two flattened matrices, of `rows` by `inner` and
/// of `inner` by `columns` elements of `scalar`, to a value of the type
/// `result`.
pub open spec fn matrix_mul(
    s: State,
    span: Span,
    scalar: Scalar,
    lhs: NativeValue,
    rhs: NativeValue,
    rows: u32,
    inner: u32,
    columns: u32,
    result: TypeHandle,
) -> (State, Result<Typed, Halt>) {
    match vector_type(span, scalar, (rows * columns) as u32) {
        Err(halt) => (s, Err(halt)),
        Ok(native) => {
            let (s1, r) = s.emit(Inst::ConstU32(rows));
            let (s2, k) = s1.emit(Inst::ConstU32(inner));
            let (s3, c) = s2.emit(Inst::ConstU32(columns));
            let (s4, value) = s3.emit(
                Inst::MatrixMultiply { result: native, lhs, rhs, rows: r, inner: k, columns: c },
            );
            (s4, Ok((value, result)))
        },
    }
}

/// The shape of a matrix product: the scalar, the rows of the left
/// operand, the dimension that the operands share, the columns of the
/// right operand, and the shape of the result. `None` where the two shapes
/// do not multiply as matrices. A vector stands for a single row on the
/// left and for a single column on the right.
pub open spec fn product_shape(lhs: TypeInner, rhs: TypeInner) -> Option<
    (Scalar, u32, u32, u32, TypeInner),
> {
    match (lhs, rhs) {
        (
            TypeInner::Matrix { rows, columns: inner, scalar },
            TypeInner::Matrix { rows: rhs_rows, columns, scalar: rhs_scalar },
        ) => if rhs_rows == inner && scalar == rhs_scalar {
            Some(
                (
                    scalar,
                    rows.count(),
                    inner.count(),
                    columns.count(),
                    TypeInner::Matrix { columns, rows, scalar },
                ),
            )
        } else {
            None
        },
        (
            TypeInner::Matrix { rows, columns: inner, scalar },
            TypeInner::Vector { size, scalar: rhs_scalar },
        ) => if size == inner && scalar == rhs_scalar {
            Some((scalar, rows.count(), inner.count(), 1, TypeInner::Vector { size: rows, scalar }))
        } else {
            None
        },
        (
            TypeInner::Vector { size: inner, scalar },
            TypeInner::Matrix { rows: rhs_rows, columns, scalar: rhs_scalar },
        ) => if rhs_rows == inner && scalar == rhs_scalar {
            Some(
                (
                    scalar,
                    1,
                    inner.count(),
                    columns.count(),
                    TypeInner::Vector { size: columns, scalar },
                ),
            )
        } else {
            None
        },
        _ => None,
    }
}

/// The span that goes with the type of a matrix product, should the type
/// be new to the module: that of the operator for a matrix, that of the
/// vector operand's type for a vector.
pub open spec fn product_span(s: State, span: Span, lhs: Typed, rhs: Typed) -> Span {
    match (s.inner(lhs.1), s.inner(rhs.1)) {
        (Ok(TypeInner::Matrix { .. }), Ok(TypeInner::Matrix { .. })) => span,
        (Ok(TypeInner::Matrix { .. }), _) => s.type_span(rhs.1),
        _ => s.type_span(lhs.1),
    }
}

/// Lowers the product of two lowered operands: a matrix multiplication
/// where the shapes of the operands multiply as matrices, whose result has
/// the product's shape; else a component-wise product.
pub open spec fn multiply(s: State, span: Span, lhs: Typed, rhs: Typed) -> (State, Result<
    Typed,
    Halt,
>) {
    match (s.inner(lhs.1), s.inner(rhs.1)) {
        (Err(halt), _) => (s, Err(halt)),
        (_, Err(halt)) => (s, Err(halt)),
        (Ok(left), Ok(right)) => match product_shape(left, right) {
            Some((scalar, rows, inner, columns, shape)) => {
                let (s1, result) = s.intern(shape, product_span(s, span, lhs, rhs));
                match result {
                    Err(halt) => (s1, Err(halt)),
                    Ok(result) => matrix_mul(
                        s1,
                        span,
                        scalar,
                        lhs.0,
                        rhs.0,
                        rows,
                        inner,
                        columns,
                        result,
                    ),
                }
            },
            None => component_wise(s, span, BinaryOperator::Multiply, lhs, rhs),
        },
    }
}

/// Lowers `op` on two lowered operands.
pub open spec fn binary_on(s: State, span: Span, op: BinaryOperator, lhs: Typed, rhs: Typed) -> (
    State,
    Result<Typed, Halt>,
) {
    match op {
        BinaryOperator::Multiply => multiply(s, span, lhs, rhs),
        _ => component_wise(s, span, op, lhs, rhs),
    }
}

/// Lowers `op` on the expressions `left` and `right`, operands of the
/// expression `bound`: first the left operand, then the right, then the
/// operator on the two.
pub open spec fn binary(
    s: State,
    loc: Option<Frame>,
    bound: ExprHandle,
    span: Span,
    op: BinaryOperator,
    left: ExprHandle,
    right: ExprHandle,
) -> (State, Result<Typed, Halt>)
    decreases rank(loc), bound.0, 0nat, 1nat,
{
    let (s1, lhs) = operand(s, loc, bound, left);
    match lhs {
        Err(halt) => (s1, Err(halt)),
        Ok(lhs) => {
            let (s2, rhs) = operand(s1, loc, bound, right);
            match rhs {
                Err(halt) => (s2, Err(halt)),
                Ok(rhs) => binary_on(s2, span, op, lhs, rhs),
            }
        },
    }
}

impl Generator {
    /// Lowers `op` on the expressions `left` and `right`, operands of the
    /// expression `bound`.
    pub fn build_binary(
        &mut self,
        location: Option<&FunctionState>,
        bound: ExprHandle,
        span: Span,
        op: BinaryOperator,
        left: ExprHandle,
        right: ExprHandle,
    ) -> (lowered: Result<Typed, Halt>)
        ensures
            final(self).module.src.functions == old(self).module.src.functions,
            (final(self)@, lowered) == binary(
                old(self)@,
                frame_of(location),
                bound,
                span,
                op,
                left,
                right,
            ),
        decreases rank(frame_of(location)), bound.0, 0nat, 1nat,
    {
        let lhs = self.eval_operand(location, bound, left)?;
        let rhs = self.eval_operand(location, bound, right)?;
        self.build_binary_on(span, op, lhs, rhs)
    }

    /// Lowers `op` on two lowered operands, component by component.
    pub fn build_component_wise(
        &mut self,
        span: Span,
        op: BinaryOperator,
        lhs: Typed,
        rhs: Typed,
    ) -> (lowered: Result<Typed, Halt>)
        ensures
            final(self).module.src.functions == old(self).module.src.functions,
            (final(self)@, lowered) == component_wise(old(self)@, span, op, lhs, rhs),
    {
        let ty: TypeHandle = lhs.1;
        if lhs.1 != rhs.1 {
            return Err(
                fail(Info::IncompatibleBinary { operator: op, lhs: lhs.1, rhs: Some(rhs.1) }, span),
            );
        }
        match self.type_inner(ty)? {
            TypeInner::Scalar(scalar) | TypeInner::Vector { scalar, .. } => {
                let scalar: Scalar = *scalar;
                match select_instruction(op, scalar.kind) {
                    None => Err(inapplicable_halt(op, scalar, ty, span)),
                    Some(opcode) => {
                        let value = self.emit(Inst::Binary { op: opcode, lhs: lhs.0, rhs: rhs.0 });
                        Ok((value, ty))
                    },
                }
            },
            TypeInner::Matrix { columns, scalar, .. } => {
                let scalar: Scalar = *scalar;
                let columns: u32 = columns.lanes();
                match select_instruction(op, scalar.kind) {
                    None => Err(inapplicable_halt(op, scalar, ty, span)),
                    Some(opcode) => {
                        let native = self.eval_cached_type(span, ty)?;
                        let undef = self.emit(Inst::Undef(native));
                        let ghost start = self@;
                        let mut result = undef;
                        let mut column: u32 = 0;
                        while column < columns
                            invariant
                                self.module.src.functions == old(self).module.src.functions,
                                column <= columns,
                                columns <= 4,
                                matrix_columns(
                                    self@,
                                    opcode,
                                    lhs.0,
                                    rhs.0,
                                    result,
                                    column,
                                    columns,
                                ) == matrix_columns(
                                    start,
                                    opcode,
                                    lhs.0,
                                    rhs.0,
                                    undef,
                                    0,
                                    columns,
                                ),
                            decreases columns - column,
                        {
                            let left = self.emit(
                                Inst::ExtractValue { aggregate: lhs.0, index: column },
                            );
                            let right = self.emit(
                                Inst::ExtractValue { aggregate: rhs.0, index: column },
                            );
                            let both = self.emit(
                                Inst::Binary { op: opcode, lhs: left, rhs: right },
                            );
                            result = self.emit(
                                Inst::InsertValue {
                                    aggregate: result,
                                    element: both,
                                    index: column,
                                },
                            );
                            column += 1;
                        }
                        Ok((result, ty))
                    },
                }
            },
            _ => Err(fail(Info::IncompatibleBinary { operator: op, lhs: ty, rhs: None }, span)),
        }
    }

    /// Lowers the product of two flattened matrices.
    pub fn build_matrix_mul(
        &mut self,
        span: Span,
        scalar: Scalar,
        lhs: NativeValue,
        rhs: NativeValue,
        rows: u32,
        inner: u32,
        columns: u32,
        result: TypeHandle,
    ) -> (lowered: Result<Typed, Halt>)
        requires
            rows * columns <= u32::MAX,
        ensures
            final(self).module.src.functions == old(self).module.src.functions,
            (final(self)@, lowered) == matrix_mul(
                old(self)@,
                span,
                scalar,
                lhs,
                rhs,
                rows,
                inner,
                columns,
                result,
            ),
    {
        let native = self.eval_vector_type(span, scalar, rows * columns)?;
        let r = self.emit(Inst::ConstU32(rows));
        let k = self.emit(Inst::ConstU32(inner));
        let c = self.emit(Inst::ConstU32(columns));
        let value = self.emit(
            Inst::MatrixMultiply { result: native, lhs, rhs, rows: r, inner: k, columns: c },
        );
        Ok((value, result))
    }

    /// Lowers the product of two lowered operands.
    pub fn build_mul(&mut self, span: Span, lhs: Typed, rhs: Typed) -> (lowered: Result<
        Typed,
        Halt,
    >)
        ensures
            final(self).module.src.functions == old(self).module.src.functions,
            (final(self)@, lowered) == multiply(old(self)@, span, lhs, rhs),
    {
        let lhs_span = self.module.src.types.get_span(lhs.1);
        let rhs_span = self.module.src.types.get_span(rhs.1);
        let left = self.type_inner(lhs.1)?;
        let right = self.type_inner(rhs.1)?;
        match (left, right) {
            (
                TypeInner::Matrix { rows, columns: inner, scalar },
                TypeInner::Matrix { rows: rhs_rows, columns, scalar: rhs_scalar },
            ) => {
                if *rhs_rows == *inner && *scalar == *rhs_scalar {
                    let scalar: Scalar = *scalar;
                    let r: u32 = rows.lanes();
                    let k: u32 = inner.lanes();
                    let c: u32 = columns.lanes();
                    let shape = TypeInner::Matrix { columns: *columns, rows: *rows, scalar };
                    let result = self.insert_type(shape, span)?;
                    assert(r * c <= 16) by (nonlinear_arith)
                        requires
                            r <= 4,
                            c <= 4,
                    ;
                    return self.build_matrix_mul(span, scalar, lhs.0, rhs.0, r, k, c, result);
                }
            },
            (
                TypeInner::Matrix { rows, columns: inner, scalar },
                TypeInner::Vector { size, scalar: rhs_scalar },
            ) => {
                if *size == *inner && *scalar == *rhs_scalar {
                    let scalar: Scalar = *scalar;
                    let r: u32 = rows.lanes();
                    let k: u32 = inner.lanes();
                    let shape = TypeInner::Vector { size: *rows, scalar };
                    let result = self.insert_type(shape, rhs_span)?;
                    return self.build_matrix_mul(span, scalar, lhs.0, rhs.0, r, k, 1, result);
                }
            },
            (
                TypeInner::Vector { size: inner, scalar },
                TypeInner::Matrix { rows: rhs_rows, columns, scalar: rhs_scalar },
            ) => {
                if *rhs_rows == *inner && *scalar == *rhs_scalar {
                    let scalar: Scalar = *scalar;
                    let k: u32 = inner.lanes();
                    let c: u32 = columns.lanes();
                    let shape = TypeInner::Vector { size: *columns, scalar };
                    let result = self.insert_type(shape, lhs_span)?;
                    return self.build_matrix_mul(span, scalar, lhs.0, rhs.0, 1, k, c, result);
                }
            },
            _ => {},
        }
        self.build_component_wise(span, BinaryOperator::Multiply, lhs, rhs)
    }

    /// Lowers `op` on two lowered operands.
    pub fn build_binary_on(
        &mut self,
        span: Span,
        op: BinaryOperator,
        lhs: Typed,
        rhs: Typed,
    ) -> (lowered: Result<Typed, Halt>)
        ensures
            final(self).module.src.functions == old(self).module.src.functions,
            (final(self)@, lowered) == binary_on(old(self)@, span, op, lhs, rhs),
    {
        match op {
            BinaryOperator::Multiply => self.build_mul(span, lhs, rhs),
            _ => self.build_component_wise(span, op, lhs, rhs),
        }
    }
}

} // verus!
