//! Generated code refers only backwards.
//!
//! Every value that an entry of the code takes as an operand is the value
//! of an entry before it. So the code can be replayed from front to back,
//! and every operand is at hand when its turn comes.

use crate::codegen::error::Halt;
use crate::codegen::assembly::{
    declare_function, declared_result, frame, function, functions_from, generated, globals_from,
    initial, initializer, locals_from, lower_params, lower_result, params_from,
};
use crate::codegen::expressions::access::{
    access, access_pointer, access_value, constant_of, index_value, is_struct, known_index,
    lanes_from, remapped, with_table,
};
use crate::codegen::expressions::binary::{
    binary, binary_on, component_wise, instruction, matrix_columns, matrix_mul, multiply,
    product_shape, product_span,
};
use crate::codegen::expressions::compose::{compose, compose_items, composite_of, Composite};
use crate::codegen::expressions::index::Index;
use crate::codegen::expressions::literal::{literal, literal_parts};
use crate::codegen::expressions::load::{column_stride, load, load_from, store, store_to};
use crate::codegen::expressions::location::{exprs_at, rank, span_of, Frame};
use crate::codegen::expressions::splat::{splat, splat_lanes, splat_value};
use crate::codegen::expressions::swizzle::{first_beyond, mask_lanes, shuffle, swizzle};
use crate::codegen::expressions::{eval, eval_cached, lanes_of, operand, zero_value};
use crate::codegen::native::{is_constant, Emitted, Inst, NativeType, NativeValue, Opcode};
use crate::codegen::statements::{body_from, emit_range, statement, statements};
use crate::codegen::target::TargetInfo;
use crate::codegen::types::{
    item, lower_cached_pointer_type, lower_cached_type, lower_members, lower_type, member_slots,
    placed_at, pointee,
};
use crate::codegen::{State, Typed};
use crate::ir::{
    span_at, undefined_span, AddressSpace, BinaryOperator, Block, ExprHandle, Expression,
    Function, FunctionArgument, GlobalVariable, Literal, Scalar, Span, SrcModule, Statement,
    TypeHandle, TypeInner, VectorSize,
};
use vstd::prelude::*;

verus! {

/// Whether every operand of `inst` is the value of an entry before the
/// position `at`.
pub open spec fn refers_back(inst: Inst, at: int) -> bool {
    match inst {
        Inst::ConstVector { element, .. } => element.0 < at,
        Inst::InsertElement { vector, element, index } => vector.0 < at && element.0 < at
            && index.0 < at,
        Inst::ExtractElement { vector, index } => vector.0 < at && index.0 < at,
        Inst::InsertValue { aggregate, element, .. } => aggregate.0 < at && element.0 < at,
        Inst::ExtractValue { aggregate, .. } => aggregate.0 < at,
        Inst::ShuffleVector { first, second, mask } => first.0 < at && second.0 < at && mask.0
            < at,
        Inst::ElementPointer { base, zero, index, .. } => base.0 < at && zero.0 < at && index.0
            < at,
        Inst::Load { pointer, .. } => pointer.0 < at,
        Inst::Store { value, pointer } => value.0 < at && pointer.0 < at,
        Inst::Binary { lhs, rhs, .. } => lhs.0 < at && rhs.0 < at,
        Inst::MatrixMultiply { lhs, rhs, rows, inner, columns, .. } => lhs.0 < at && rhs.0 < at
            && rows.0 < at && inner.0 < at && columns.0 < at,
        Inst::ColumnMajorLoad { pointer, stride, volatile, rows, columns, .. } => pointer.0 < at
            && stride.0 < at && volatile.0 < at && rows.0 < at && columns.0 < at,
        Inst::ColumnMajorStore { value, pointer, stride, volatile, rows, columns } => value.0
            < at && pointer.0 < at && stride.0 < at && volatile.0 < at && rows.0 < at
            && columns.0 < at,
        Inst::Initializer { global, value } => global.0 < at && value.0 < at,
        Inst::EntryBlock { function } => function.0 < at,
        Inst::Parameter { function, .. } => function.0 < at,
        Inst::Return { value } => value.0 < at,
        _ => true,
    }
}

/// Whether every entry of `code` refers only to entries before it.
pub open spec fn scoped(code: Seq<Emitted>) -> bool {
    forall|at: int| 0 <= at < code.len() ==> refers_back((#[trigger] code[at]).inst, at)
}

/// Whether `value` is the value of an entry of the code of `s`.
pub open spec fn known(s: State, value: NativeValue) -> bool {
    value.0 < s.code.len()
}

/// Whether each of `values` is the value of an entry of the code of `s`.
pub open spec fn all_known(s: State, values: Seq<Typed>) -> bool {
    forall|i: int| 0 <= i < values.len() ==> known(s, (#[trigger] values[i]).0)
}

/// Whether the code of `s` refers only backwards, and every value that
/// `s` remembers, of an expression or of a global variable, is the value
/// of an entry of the code.
pub open spec fn sound(s: State) -> bool {
    &&& scoped(s.code)
    &&& all_known(s, s.globals)
    &&& forall|key: usize| #[trigger]
        s.expr_cache.contains_key(key) ==> known(s, s.expr_cache[key].0)
}

/// Whether the variables and parameters of the location are values of
/// entries of the code of `s`.
pub open spec fn at_hand(s: State, loc: Option<Frame>) -> bool {
    match loc {
        Some(frame) => all_known(s, frame.locals) && all_known(s, frame.params),
        None => true,
    }
}

/// Whether `after` is a sound state that has the code of `before` and
/// maybe more.
pub open spec fn follows(before: State, after: State) -> bool {
    sound(after) && before.code.len() <= after.code.len()
}

/// Whether a step from `before` led to a sound state, and to a value that
/// is at hand there.
pub open spec fn yields(before: State, step: (State, Result<Typed, Halt>)) -> bool {
    follows(before, step.0) && (step.1 matches Ok((value, _)) ==> known(step.0, value))
}

/// Emitting an instruction whose operands are known keeps the state
/// sound, and the value of the instruction is known afterwards.
pub proof fn emit_is_sound(s: State, inst: Inst)
    requires
        sound(s),
        refers_back(inst, s.code.len() as int),
    ensures
        follows(s, s.emit(inst).0),
        known(s.emit(inst).0, s.emit(inst).1),
        s.emit(inst).0.code.len() == s.code.len() + 1,
{
}

/// Whether a step from `before` to `after` left the code and what is
/// remembered of expressions and global variables as they were.
pub open spec fn keeps(before: State, after: State) -> bool {
    after.code == before.code && after.expr_cache == before.expr_cache && after.globals
        == before.globals
}

/// Lowering the members of a struct emits nothing.
pub proof fn lower_members_keeps(
    s: State,
    span: Span,
    ty: TypeHandle,
    slots: Seq<(TypeHandle, u32)>,
    i: int,
    end: u32,
    table: Seq<u32>,
    next: u32,
)
    ensures
        keeps(s, lower_members(s, span, ty, slots, i, end, table, next).0),
    decreases ty.0, 0nat, slots.len() - i,
{
    if 0 <= i < slots.len() {
        let (member, offset) = slots[i];
        if member.0 < ty.0 {
            lower_cached_type_keeps(s, span, member);
            let (s1, lowered) = lower_cached_type(s, span, member);
            if let Ok(native) = lowered {
                if let Some(size) = crate::codegen::target::abi_size(s1.layouts, native) {
                    let index = if end < offset {
                        next + 1
                    } else {
                        next as int
                    };
                    lower_members_keeps(
                        s1,
                        span,
                        ty,
                        slots,
                        i + 1,
                        (placed_at(end, offset) + size) as u32,
                        table.push(index as u32),
                        (index + 1) as u32,
                    );
                }
            }
        }
    }
}

/// Lowering a type emits nothing.
pub proof fn lower_type_keeps(s: State, span: Span, ty: TypeHandle)
    ensures
        keeps(s, lower_type(s, span, ty).0),
    decreases ty.0, 1nat, 0nat,
{
    match s.inner(ty) {
        Ok(TypeInner::Array { base, .. }) => {
            if base.0 < ty.0 {
                lower_cached_type_keeps(s, span, base);
            }
        },
        Ok(TypeInner::Struct { members, .. }) => {
            lower_members_keeps(s, span, ty, member_slots(members@), 0, 0, Seq::empty(), 0);
        },
        _ => {},
    }
}

/// Lowering a type through the cache emits nothing.
pub proof fn lower_cached_type_keeps(s: State, span: Span, ty: TypeHandle)
    ensures
        keeps(s, lower_cached_type(s, span, ty).0),
    decreases ty.0, 2nat, 0nat,
{
    if !s.type_cache.contains_key(ty.0) {
        lower_type_keeps(s, span, ty);
    }
}

/// Lowering a type as storage emits nothing.
pub proof fn lower_cached_pointer_type_keeps(s: State, span: Span, ty: TypeHandle)
    ensures
        keeps(s, lower_cached_pointer_type(s, span, ty).0),
{
    lower_type_keeps(s, span, ty);
}

/// Filling the lanes of a shuffle mask keeps the state sound, and the mask
/// is at hand afterwards.
pub proof fn mask_lanes_sound(s: State, mask: NativeValue, pattern: Seq<usize>, i: u32, lanes: u32)
    requires
        sound(s),
        known(s, mask),
    ensures
        follows(s, mask_lanes(s, mask, pattern, i, lanes).0),
        known(mask_lanes(s, mask, pattern, i, lanes).0, mask_lanes(s, mask, pattern, i, lanes).1),
    decreases lanes - i,
{
    if i < lanes && i < pattern.len() {
        let (s1, lane) = s.emit(Inst::ConstU64(pattern[i as int] as u64));
        emit_is_sound(s, Inst::ConstU64(pattern[i as int] as u64));
        let (s2, at) = s1.emit(Inst::ConstU64(i as u64));
        emit_is_sound(s1, Inst::ConstU64(i as u64));
        let inst = Inst::InsertElement { vector: mask, element: lane, index: at };
        let (s3, next) = s2.emit(inst);
        emit_is_sound(s2, inst);
        mask_lanes_sound(s3, next, pattern, (i + 1) as u32, lanes);
    }
}

/// Lowering a selection of lanes from a value that is at hand keeps the
/// state sound, and the selection is at hand afterwards.
pub proof fn shuffle_sound(
    s: State,
    span: Span,
    size: VectorSize,
    vector: NativeValue,
    ty: TypeHandle,
    scalar: Scalar,
    limit: u32,
    pattern: Seq<usize>,
)
    requires
        sound(s),
        known(s, vector),
    ensures
        yields(s, shuffle(s, span, size, vector, ty, scalar, limit, pattern)),
{
    if first_beyond(pattern, size.count() as int, limit as int, 0).is_none() {
        let first = Inst::Undef(
            NativeType::Vector { element: Box::new(NativeType::Int(64)), len: size.count() },
        );
        let (s1, undef) = s.emit(first);
        emit_is_sound(s, first);
        mask_lanes_sound(s1, undef, pattern, 0, size.count());
        let (s2, mask) = mask_lanes(s1, undef, pattern, 0, size.count());
        lower_cached_type_keeps(s2, span, ty);
        let (s3, lowered) = lower_cached_type(s2, span, ty);
        if let Ok(native) = lowered {
            let (s4, second) = s3.emit(Inst::Undef(native));
            emit_is_sound(s3, Inst::Undef(native));
            let inst = Inst::ShuffleVector { first: vector, second, mask };
            let (s5, shuffled) = s4.emit(inst);
            emit_is_sound(s4, inst);
        }
    }
}

/// Lowering a swizzle of a value that is at hand keeps the state sound,
/// and the result is at hand afterwards.
pub proof fn swizzle_sound(
    s: State,
    span: Span,
    size: VectorSize,
    vector: NativeValue,
    ty: TypeHandle,
    pattern: Seq<usize>,
)
    requires
        sound(s),
        known(s, vector),
    ensures
        yields(s, swizzle(s, span, size, vector, ty, pattern)),
{
    if let Ok(TypeInner::Vector { scalar, size: in_size }) = s.inner(ty) {
        shuffle_sound(s, span, size, vector, ty, scalar, in_size.count(), pattern);
    }
}

/// Splatting a value lane by lane keeps the state sound.
pub proof fn splat_lanes_sound(s: State, vector: NativeValue, value: NativeValue, i: u32, lanes: u32)
    requires
        sound(s),
        known(s, vector),
        known(s, value),
    ensures
        follows(s, splat_lanes(s, vector, value, i, lanes).0),
        known(splat_lanes(s, vector, value, i, lanes).0, splat_lanes(s, vector, value, i, lanes).1),
    decreases lanes - i,
{
    if i < lanes {
        let (s1, at) = s.emit(Inst::ConstU64(i as u64));
        emit_is_sound(s, Inst::ConstU64(i as u64));
        let inst = Inst::InsertElement { vector, element: value, index: at };
        let (s2, next) = s1.emit(inst);
        emit_is_sound(s1, inst);
        splat_lanes_sound(s2, next, value, (i + 1) as u32, lanes);
    }
}

/// Lowering the splat of a value that is at hand keeps the state sound.
pub proof fn splat_value_sound(
    s: State,
    span: Span,
    value: NativeValue,
    ty: TypeHandle,
    size: VectorSize,
)
    requires
        sound(s),
        known(s, value),
    ensures
        yields(s, splat_value(s, span, value, ty, size)),
{
    if let Ok(TypeInner::Scalar(scalar)) = s.inner(ty) {
        let (s1, interned) = s.intern(TypeInner::Vector { size, scalar }, s.type_span(ty));
        if interned.is_ok() {
            if is_constant(s1.code, value) {
                emit_is_sound(s1, Inst::ConstVector { element: value, len: size.count() });
            } else {
                lower_cached_type_keeps(s1, span, ty);
                let (s2, lowered) = lower_cached_type(s1, span, ty);
                if let Ok(element) = lowered {
                    let inst = Inst::Undef(
                        NativeType::Vector { element: Box::new(element), len: size.count() },
                    );
                    let (s3, undef) = s2.emit(inst);
                    emit_is_sound(s2, inst);
                    splat_lanes_sound(s3, undef, value, 0, size.count());
                }
            }
        }
    }
}

/// Applying an operator to the columns of two matrices keeps the state
/// sound.
pub proof fn matrix_columns_sound(
    s: State,
    opcode: Opcode,
    lhs: NativeValue,
    rhs: NativeValue,
    result: NativeValue,
    column: u32,
    columns: u32,
)
    requires
        sound(s),
        known(s, lhs),
        known(s, rhs),
        known(s, result),
    ensures
        follows(s, matrix_columns(s, opcode, lhs, rhs, result, column, columns).0),
        known(
            matrix_columns(s, opcode, lhs, rhs, result, column, columns).0,
            matrix_columns(s, opcode, lhs, rhs, result, column, columns).1,
        ),
    decreases columns - column,
{
    if column < columns {
        let (s1, left) = s.emit(Inst::ExtractValue { aggregate: lhs, index: column });
        emit_is_sound(s, Inst::ExtractValue { aggregate: lhs, index: column });
        let (s2, right) = s1.emit(Inst::ExtractValue { aggregate: rhs, index: column });
        emit_is_sound(s1, Inst::ExtractValue { aggregate: rhs, index: column });
        let (s3, both) = s2.emit(Inst::Binary { op: opcode, lhs: left, rhs: right });
        emit_is_sound(s2, Inst::Binary { op: opcode, lhs: left, rhs: right });
        let inst = Inst::InsertValue { aggregate: result, element: both, index: column };
        let (s4, next) = s3.emit(inst);
        emit_is_sound(s3, inst);
        matrix_columns_sound(s4, opcode, lhs, rhs, next, (column + 1) as u32, columns);
    }
}

/// Lowering an operator component by component on operands that are at
/// hand keeps the state sound.
pub proof fn component_wise_sound(s: State, span: Span, op: BinaryOperator, lhs: Typed, rhs: Typed)
    requires
        sound(s),
        known(s, lhs.0),
        known(s, rhs.0),
    ensures
        yields(s, component_wise(s, span, op, lhs, rhs)),
{
    if lhs.1 == rhs.1 {
        match s.inner(lhs.1) {
            Ok(TypeInner::Scalar(scalar)) | Ok(TypeInner::Vector { scalar, .. }) => {
                if let Some(opcode) = instruction(op, scalar.kind) {
                    emit_is_sound(s, Inst::Binary { op: opcode, lhs: lhs.0, rhs: rhs.0 });
                }
            },
            Ok(TypeInner::Matrix { columns, scalar, .. }) => {
                if let Some(opcode) = instruction(op, scalar.kind) {
                    lower_cached_type_keeps(s, span, lhs.1);
                    let (s1, lowered) = lower_cached_type(s, span, lhs.1);
                    if let Ok(native) = lowered {
                        let (s2, undef) = s1.emit(Inst::Undef(native));
                        emit_is_sound(s1, Inst::Undef(native));
                        matrix_columns_sound(s2, opcode, lhs.0, rhs.0, undef, 0, columns.count());
                    }
                }
            },
            _ => {},
        }
    }
}

/// Lowering a matrix product of operands that are at hand keeps the state
/// sound.
pub proof fn matrix_mul_sound(
    s: State,
    span: Span,
    scalar: Scalar,
    lhs: NativeValue,
    rhs: NativeValue,
    rows: u32,
    inner: u32,
    columns: u32,
    result: TypeHandle,
)
    requires
        sound(s),
        known(s, lhs),
        known(s, rhs),
    ensures
        yields(s, matrix_mul(s, span, scalar, lhs, rhs, rows, inner, columns, result)),
{
    if let Ok(native) = crate::codegen::types::vector_type(span, scalar, (rows * columns) as u32) {
        let (s1, r) = s.emit(Inst::ConstU32(rows));
        emit_is_sound(s, Inst::ConstU32(rows));
        let (s2, k) = s1.emit(Inst::ConstU32(inner));
        emit_is_sound(s1, Inst::ConstU32(inner));
        let (s3, c) = s2.emit(Inst::ConstU32(columns));
        emit_is_sound(s2, Inst::ConstU32(columns));
        emit_is_sound(
            s3,
            Inst::MatrixMultiply { result: native, lhs, rhs, rows: r, inner: k, columns: c },
        );
    }
}

/// Lowering an operator on operands that are at hand keeps the state
/// sound, and the result is at hand afterwards.
pub proof fn binary_on_sound(s: State, span: Span, op: BinaryOperator, lhs: Typed, rhs: Typed)
    requires
        sound(s),
        known(s, lhs.0),
        known(s, rhs.0),
    ensures
        yields(s, binary_on(s, span, op, lhs, rhs)),
        yields(s, multiply(s, span, lhs, rhs)),
{
    component_wise_sound(s, span, op, lhs, rhs);
    component_wise_sound(s, span, BinaryOperator::Multiply, lhs, rhs);
    if let (Ok(left), Ok(right)) = (s.inner(lhs.1), s.inner(rhs.1)) {
        if let Some((scalar, rows, inner, columns, shape)) = product_shape(left, right) {
            let (s1, result) = s.intern(shape, product_span(s, span, lhs, rhs));
            if let Ok(result) = result {
                matrix_mul_sound(s1, span, scalar, lhs.0, rhs.0, rows, inner, columns, result);
            }
        }
    }
}

/// Lowering a load through a pointer that is at hand keeps the state
/// sound, and the loaded value is at hand afterwards.
pub proof fn load_from_sound(s: State, span: Span, pointer: NativeValue, ty: TypeHandle)
    requires
        sound(s),
        known(s, pointer),
    ensures
        yields(s, load_from(s, span, pointer, ty)),
{
    let (s1, target) = pointee(s, ty);
    if let Ok(Some((inner, _))) = target {
        match s1.inner(inner) {
            Ok(TypeInner::Matrix { rows, columns, scalar }) => {
                if let Ok((element, stride)) = column_stride(s1, span, scalar, rows) {
                    let (s2, distance) = s1.emit(Inst::ConstU64(stride as u64));
                    emit_is_sound(s1, Inst::ConstU64(stride as u64));
                    let (s3, volatile) = s2.emit(Inst::ConstBool(false));
                    emit_is_sound(s2, Inst::ConstBool(false));
                    let (s4, r) = s3.emit(Inst::ConstU32(rows.count()));
                    emit_is_sound(s3, Inst::ConstU32(rows.count()));
                    let (s5, c) = s4.emit(Inst::ConstU32(columns.count()));
                    emit_is_sound(s4, Inst::ConstU32(columns.count()));
                    emit_is_sound(
                        s5,
                        Inst::ColumnMajorLoad {
                            result: NativeType::Vector {
                                element: Box::new(element),
                                len: (columns.count() * rows.count()) as u32,
                            },
                            pointer,
                            stride: distance,
                            volatile,
                            rows: r,
                            columns: c,
                        },
                    );
                }
            },
            Ok(_) => {
                lower_cached_type_keeps(s1, span, inner);
                let (s2, lowered) = lower_cached_type(s1, span, inner);
                if let Ok(native) = lowered {
                    emit_is_sound(s2, Inst::Load { ty: native, pointer });
                }
            },
            _ => {},
        }
    }
}

/// Lowering a store of a value through a pointer, both at hand, keeps the
/// state sound.
pub proof fn store_to_sound(
    s: State,
    span: Span,
    pointer: NativeValue,
    value: NativeValue,
    ty: TypeHandle,
)
    requires
        sound(s),
        known(s, pointer),
        known(s, value),
    ensures
        follows(s, store_to(s, span, pointer, value, ty).0),
{
    match s.inner(ty) {
        Ok(TypeInner::Matrix { rows, columns, scalar }) => {
            if let Ok((_, stride)) = column_stride(s, span, scalar, rows) {
                let (s1, distance) = s.emit(Inst::ConstU64(stride as u64));
                emit_is_sound(s, Inst::ConstU64(stride as u64));
                let (s2, volatile) = s1.emit(Inst::ConstBool(false));
                emit_is_sound(s1, Inst::ConstBool(false));
                let (s3, r) = s2.emit(Inst::ConstU32(rows.count()));
                emit_is_sound(s2, Inst::ConstU32(rows.count()));
                let (s4, c) = s3.emit(Inst::ConstU32(columns.count()));
                emit_is_sound(s3, Inst::ConstU32(columns.count()));
                emit_is_sound(
                    s4,
                    Inst::ColumnMajorStore {
                        value,
                        pointer,
                        stride: distance,
                        volatile,
                        rows: r,
                        columns: c,
                    },
                );
            }
        },
        Ok(_) => {
            emit_is_sound(s, Inst::Store { value, pointer });
        },
        _ => {},
    }
}

/// Lowering a literal keeps the state sound.
pub proof fn literal_sound(s: State, span: Span, value: Literal)
    requires
        sound(s),
    ensures
        yields(s, literal(s, span, value)),
{
    if let Some((inst, scalar)) = literal_parts(value) {
        emit_is_sound(s, inst);
    }
}

/// Lowering a zero value keeps the state sound.
pub proof fn zero_value_sound(s: State, span: Span, ty: TypeHandle)
    requires
        sound(s),
    ensures
        yields(s, zero_value(s, span, ty)),
{
    lower_cached_type_keeps(s, span, ty);
    let (s1, lowered) = lower_cached_type(s, span, ty);
    if let Ok(native) = lowered {
        emit_is_sound(s1, Inst::ConstNull(native));
    }
}

/// Lowering an operand keeps the state sound, and the operand is at hand
/// afterwards.
pub proof fn operand_sound(s: State, loc: Option<Frame>, bound: ExprHandle, expr: ExprHandle)
    requires
        sound(s),
        at_hand(s, loc),
    ensures
        yields(s, operand(s, loc, bound, expr)),
    decreases rank(loc), bound.0, 0nat, 0nat,
{
    if expr.0 < bound.0 {
        eval_cached_sound(s, loc, expr);
    }
}

/// Putting components into a value that is at hand keeps the state sound.
pub proof fn compose_items_sound(
    s: State,
    loc: Option<Frame>,
    bound: ExprHandle,
    span: Span,
    kind: Composite,
    components: Seq<ExprHandle>,
    table: Seq<u32>,
    i: int,
    value: NativeValue,
)
    requires
        sound(s),
        at_hand(s, loc),
        known(s, value),
    ensures
        follows(s, compose_items(s, loc, bound, span, kind, components, table, i, value).0),
        compose_items(s, loc, bound, span, kind, components, table, i, value).1 matches Ok(
            composed,
        ) ==> known(
            compose_items(s, loc, bound, span, kind, components, table, i, value).0,
            composed,
        ),
    decreases rank(loc), bound.0, 0nat, 1 + components.len() - i,
{
    if !(i < 0 || i >= components.len() || (kind == Composite::Struct && i >= table.len())) && i
        <= u32::MAX {
        operand_sound(s, loc, bound, components[i]);
        let (s1, lowered) = operand(s, loc, bound, components[i]);
        if let Ok((component, ty)) = lowered {
            match kind {
                Composite::Vector => {
                    let (s2, at) = s1.emit(Inst::ConstU64(i as u64));
                    emit_is_sound(s1, Inst::ConstU64(i as u64));
                    let inst = Inst::InsertElement { vector: value, element: component, index: at };
                    let (s3, next) = s2.emit(inst);
                    emit_is_sound(s2, inst);
                    compose_items_sound(s3, loc, bound, span, kind, components, table, i + 1, next);
                },
                Composite::Matrix => {
                    if let Ok(TypeInner::Vector { .. }) = s1.inner(ty) {
                        let inst = Inst::InsertValue {
                            aggregate: value,
                            element: component,
                            index: i as u32,
                        };
                        let (s2, next) = s1.emit(inst);
                        emit_is_sound(s1, inst);
                        compose_items_sound(
                            s2,
                            loc,
                            bound,
                            span,
                            kind,
                            components,
                            table,
                            i + 1,
                            next,
                        );
                    }
                },
                Composite::Array => {
                    let inst = Inst::InsertValue {
                        aggregate: value,
                        element: component,
                        index: i as u32,
                    };
                    let (s2, next) = s1.emit(inst);
                    emit_is_sound(s1, inst);
                    compose_items_sound(s2, loc, bound, span, kind, components, table, i + 1, next);
                },
                Composite::Struct => {
                    let inst = Inst::InsertValue {
                        aggregate: value,
                        element: component,
                        index: table[i],
                    };
                    let (s2, next) = s1.emit(inst);
                    emit_is_sound(s1, inst);
                    compose_items_sound(s2, loc, bound, span, kind, components, table, i + 1, next);
                },
            }
        }
    }
}

/// Lowering a composition keeps the state sound.
pub proof fn compose_sound(
    s: State,
    loc: Option<Frame>,
    bound: ExprHandle,
    span: Span,
    ty: TypeHandle,
    components: Seq<ExprHandle>,
)
    requires
        sound(s),
        at_hand(s, loc),
    ensures
        yields(s, compose(s, loc, bound, span, ty, components)),
    decreases rank(loc), bound.0, 0nat, 2 + components.len(),
{
    if let Ok(inner) = s.inner(ty) {
        if let Some(kind) = composite_of(inner) {
            lower_cached_type_keeps(s, span, ty);
            let (s1, lowered) = lower_cached_type(s, span, ty);
            if let Ok(native) = lowered {
                let (s2, undef) = s1.emit(Inst::Undef(native));
                emit_is_sound(s1, Inst::Undef(native));
                if !(kind == Composite::Struct && !s2.struct_maps.contains_key(ty.0)) {
                    let table = if kind == Composite::Struct {
                        s2.struct_maps[ty.0]
                    } else {
                        Seq::empty()
                    };
                    compose_items_sound(s2, loc, bound, span, kind, components, table, 0, undef);
                }
            }
        }
    }
}

/// Lowering an index keeps the state sound, and the index is at hand
/// afterwards.
pub proof fn index_value_sound(
    s: State,
    loc: Option<Frame>,
    bound: ExprHandle,
    index: Index,
    narrow: bool,
)
    requires
        sound(s),
        at_hand(s, loc),
    ensures
        follows(s, index_value(s, loc, bound, index, narrow).0),
        index_value(s, loc, bound, index, narrow).1 matches Ok(at) ==> known(
            index_value(s, loc, bound, index, narrow).0,
            at,
        ),
    decreases rank(loc), bound.0, 0nat, 1nat,
{
    match index {
        Index::Dynamic(expr) => {
            operand_sound(s, loc, bound, expr);
        },
        Index::Constant(at) => {
            emit_is_sound(s, Inst::ConstU32(at));
            emit_is_sound(s, Inst::ConstU64(at as u64));
        },
    }
}

/// Lowering an access through a pointer that is at hand keeps the state
/// sound.
pub proof fn access_pointer_sound(
    s: State,
    loc: Option<Frame>,
    bound: ExprHandle,
    span: Span,
    base: NativeValue,
    inner: TypeHandle,
    space: AddressSpace,
    index: Index,
    native: Index,
)
    requires
        sound(s),
        at_hand(s, loc),
        known(s, base),
    ensures
        yields(s, access_pointer(s, loc, bound, span, base, inner, space, index, native)),
    decreases rank(loc), bound.0, 0nat, 2nat,
{
    let narrow = match native {
        Index::Constant(_) => is_struct(s, inner),
        Index::Dynamic(_) => Ok(false),
    };
    if let Ok(narrow) = narrow {
        index_value_sound(s, loc, bound, native, narrow);
        let (s1, at) = index_value(s, loc, bound, native, narrow);
        if let Ok(at) = at {
            lower_cached_type_keeps(s1, span, inner);
            let (s2, lowered) = lower_cached_type(s1, span, inner);
            if let Ok(pointee_type) = lowered {
                let (s3, found) = item(s2, span, inner, constant_of(index));
                if let Ok(item_ty) = found {
                    let (s4, zero) = s3.emit(Inst::ConstU64(0));
                    emit_is_sound(s3, Inst::ConstU64(0));
                    emit_is_sound(
                        s4,
                        Inst::ElementPointer { pointee: pointee_type, base, zero, index: at },
                    );
                }
            }
        }
    }
}

/// Lowering an access to an item of a value that is at hand keeps the
/// state sound.
pub proof fn access_value_sound(
    s: State,
    loc: Option<Frame>,
    bound: ExprHandle,
    span: Span,
    base: NativeValue,
    ty: TypeHandle,
    index: Index,
    native: Index,
)
    requires
        sound(s),
        at_hand(s, loc),
        known(s, base),
    ensures
        yields(s, access_value(s, loc, bound, span, base, ty, index, native)),
    decreases rank(loc), bound.0, 0nat, 2nat,
{
    index_value_sound(s, loc, bound, native, false);
    let (s1, at) = index_value(s, loc, bound, native, false);
    if let Ok(at) = at {
        let known_native = known_index(s1, loc, native);
        let (s2, found) = item(
            s1,
            span,
            ty,
            match known_index(s1, loc, index) {
                Some(k) => Some(k as usize),
                None => None,
            },
        );
        if let Ok(item_ty) = found {
            match s2.inner(ty) {
                Ok(TypeInner::Vector { .. }) => {
                    emit_is_sound(s2, Inst::ExtractElement { vector: base, index: at });
                },
                Ok(TypeInner::Matrix { rows, columns, scalar }) => {
                    if let Some(k) = known_native {
                        if k * rows.count() + 3 <= usize::MAX {
                            shuffle_sound(
                                s2,
                                span,
                                rows,
                                base,
                                ty,
                                scalar,
                                (rows.count() * columns.count()) as u32,
                                lanes_from((k * rows.count()) as usize),
                            );
                        }
                    }
                },
                Ok(_) => {
                    if let Some(k) = known_native {
                        emit_is_sound(s2, Inst::ExtractValue { aggregate: base, index: k });
                    }
                },
                _ => {},
            }
        }
    }
}

/// Lowering an access keeps the state sound.
pub proof fn access_sound(
    s: State,
    loc: Option<Frame>,
    bound: ExprHandle,
    span: Span,
    base: ExprHandle,
    index: Index,
)
    requires
        sound(s),
        at_hand(s, loc),
    ensures
        yields(s, access(s, loc, bound, span, base, index)),
    decreases rank(loc), bound.0, 0nat, 3nat,
{
    operand_sound(s, loc, bound, base);
    let (s1, lowered) = operand(s, loc, bound, base);
    if let Ok((value, ty)) = lowered {
        let (s2, target) = pointee(s1, ty);
        match target {
            Ok(Some((inner, space))) => {
                lower_cached_type_keeps(s2, span, inner);
                let (s3, ready) = with_table(s2, span, inner, index);
                if ready.is_ok() {
                    if let Ok(native) = remapped(s3, inner, index) {
                        access_pointer_sound(
                            s3,
                            loc,
                            bound,
                            span,
                            value,
                            inner,
                            space,
                            index,
                            native,
                        );
                    }
                }
            },
            Ok(None) => {
                if let Ok(native) = remapped(s2, ty, index) {
                    access_value_sound(s2, loc, bound, span, value, ty, index, native);
                }
            },
            _ => {},
        }
    }
}

/// Lowering the splat of an expression keeps the state sound.
pub proof fn splat_sound(
    s: State,
    loc: Option<Frame>,
    bound: ExprHandle,
    span: Span,
    value: ExprHandle,
    size: VectorSize,
)
    requires
        sound(s),
        at_hand(s, loc),
    ensures
        yields(s, splat(s, loc, bound, span, value, size)),
    decreases rank(loc), bound.0, 0nat, 1nat,
{
    operand_sound(s, loc, bound, value);
    let (s1, lowered) = operand(s, loc, bound, value);
    if let Ok((native, ty)) = lowered {
        splat_value_sound(s1, span, native, ty, size);
    }
}

/// Lowering the load of an expression keeps the state sound.
pub proof fn load_sound(s: State, loc: Option<Frame>, bound: ExprHandle, span: Span, pointer: ExprHandle)
    requires
        sound(s),
        at_hand(s, loc),
    ensures
        yields(s, load(s, loc, bound, span, pointer)),
    decreases rank(loc), bound.0, 0nat, 1nat,
{
    operand_sound(s, loc, bound, pointer);
    let (s1, lowered) = operand(s, loc, bound, pointer);
    if let Ok((value, ty)) = lowered {
        load_from_sound(s1, span, value, ty);
    }
}

/// Lowering an operator on two expressions keeps the state sound.
pub proof fn binary_sound(
    s: State,
    loc: Option<Frame>,
    bound: ExprHandle,
    span: Span,
    op: BinaryOperator,
    left: ExprHandle,
    right: ExprHandle,
)
    requires
        sound(s),
        at_hand(s, loc),
    ensures
        yields(s, binary(s, loc, bound, span, op, left, right)),
    decreases rank(loc), bound.0, 0nat, 1nat,
{
    operand_sound(s, loc, bound, left);
    let (s1, lhs) = operand(s, loc, bound, left);
    if let Ok(lhs) = lhs {
        operand_sound(s1, loc, bound, right);
        let (s2, rhs) = operand(s1, loc, bound, right);
        if let Ok(rhs) = rhs {
            binary_on_sound(s2, span, op, lhs, rhs);
        }
    }
}

/// Lowering an expression keeps the state sound, and its value is at
/// hand afterwards.
pub proof fn eval_sound(s: State, loc: Option<Frame>, expr: ExprHandle)
    requires
        sound(s),
        at_hand(s, loc),
    ensures
        yields(s, eval(s, loc, expr)),
    decreases rank(loc), expr.0, 1nat, 0nat,
{
    if expr.0 < exprs_at(s, loc).len() {
        let span = span_of(s, loc, expr);
        match exprs_at(s, loc)[expr.0 as int] {
            Expression::Literal(value) => {
                literal_sound(s, span, value);
            },
            Expression::Constant(constant) => {
                if constant < s.constants.len() && !(loc.is_none()
                    && s.constants[constant as int].init.0 >= expr.0) {
                    eval_sound(s, None, s.constants[constant as int].init);
                }
            },
            Expression::ZeroValue(ty) => {
                zero_value_sound(s, span, ty);
            },
            Expression::Compose { ty, components } => {
                compose_sound(s, loc, expr, span, ty, components@);
            },
            Expression::Access { base, index } => {
                access_sound(s, loc, expr, span, base, Index::Dynamic(index));
            },
            Expression::AccessIndex { base, index } => {
                access_sound(s, loc, expr, span, base, Index::Constant(index));
            },
            Expression::Splat { size, value } => {
                splat_sound(s, loc, expr, span, value, size);
            },
            Expression::Swizzle { size, vector, pattern } => {
                operand_sound(s, loc, expr, vector);
                let (s1, lowered) = operand(s, loc, expr, vector);
                if let Ok((value, ty)) = lowered {
                    swizzle_sound(s1, span, size, value, ty, lanes_of(pattern));
                }
            },
            Expression::Load { pointer } => {
                load_sound(s, loc, expr, span, pointer);
            },
            Expression::Binary { op, left, right } => {
                binary_sound(s, loc, expr, span, op, left, right);
            },
            _ => {},
        }
    }
}

/// Lowering an expression through the cache keeps the state sound, and
/// its value is at hand afterwards.
pub proof fn eval_cached_sound(s: State, loc: Option<Frame>, expr: ExprHandle)
    requires
        sound(s),
        at_hand(s, loc),
    ensures
        yields(s, eval_cached(s, loc, expr)),
    decreases rank(loc), expr.0, 2nat, 0nat,
{
    if loc.is_none() || !s.expr_cache.contains_key(expr.0) {
        eval_sound(s, loc, expr);
    }
}

/// Lowering a store of an expression through a pointer that is at hand
/// keeps the state sound.
pub proof fn store_sound(s: State, loc: Option<Frame>, span: Span, pointer: NativeValue, value: ExprHandle)
    requires
        sound(s),
        at_hand(s, loc),
        known(s, pointer),
    ensures
        follows(s, store(s, loc, span, pointer, value).0),
{
    eval_cached_sound(s, loc, value);
    let (s1, lowered) = eval_cached(s, loc, value);
    if let Ok((native, ty)) = lowered {
        store_to_sound(s1, span, pointer, native, ty);
    }
}

/// Lowering a range of expressions keeps the state sound.
pub proof fn emit_range_sound(s: State, frame: Frame, next: usize, end: usize)
    requires
        sound(s),
        at_hand(s, Some(frame)),
    ensures
        follows(s, emit_range(s, frame, next, end).0),
    decreases end - next,
{
    if next < end {
        eval_cached_sound(s, Some(frame), ExprHandle(next));
        let (s1, lowered) = eval_cached(s, Some(frame), ExprHandle(next));
        if lowered.is_ok() {
            emit_range_sound(s1, frame, (next + 1) as usize, end);
        }
    }
}

/// Lowering the statements of a block keeps the state sound.
pub proof fn statements_sound(
    s: State,
    frame: Frame,
    result: Option<TypeHandle>,
    span: Span,
    body: Vec<Statement>,
    i: int,
)
    requires
        sound(s),
        at_hand(s, Some(frame)),
    ensures
        follows(s, statements(s, frame, result, span, body, i).0),
    decreases body, body.len() - i,
{
    if 0 <= i < body.len() {
        statement_sound(s, frame, result, span, body[i]);
        let (s1, done) = statement(s, frame, result, span, body[i]);
        if done.is_ok() {
            statements_sound(s1, frame, result, span, body, i + 1);
        }
    }
}

/// Lowering a statement keeps the state sound.
pub proof fn statement_sound(
    s: State,
    frame: Frame,
    result: Option<TypeHandle>,
    span: Span,
    stmt: Statement,
)
    requires
        sound(s),
        at_hand(s, Some(frame)),
    ensures
        follows(s, statement(s, frame, result, span, stmt).0),
    decreases stmt, 0nat,
{
    match stmt {
        Statement::Emit { start, end } => {
            emit_range_sound(s, frame, start, end);
        },
        Statement::Block(block) => {
            statements_sound(s, frame, result, span, block.body, 0);
        },
        Statement::Return { value } => {
            match value {
                Some(value) => {
                    eval_cached_sound(s, Some(frame), value);
                    let (s1, lowered) = eval_cached(s, Some(frame), value);
                    if let Ok((native, ty)) = lowered {
                        emit_is_sound(s1, Inst::Return { value: native });
                    }
                },
                None => {
                    emit_is_sound(s, Inst::ReturnVoid);
                },
            }
        },
        Statement::Store { pointer, value } => {
            eval_cached_sound(s, Some(frame), pointer);
            let (s1, lowered) = eval_cached(s, Some(frame), pointer);
            if let Ok((address, _)) = lowered {
                store_sound(s1, Some(frame), span, address, value);
            }
        },
        Statement::Other(_) => {},
    }
}

/// Lowering the body of a function keeps the state sound.
pub proof fn body_from_sound(s: State, frame: Frame, result: Option<TypeHandle>, body: Block, i: int)
    requires
        sound(s),
        at_hand(s, Some(frame)),
    ensures
        follows(s, body_from(s, frame, result, body, i).0),
    decreases body.body.len() - i,
{
    if 0 <= i < body.body.len() {
        let span = span_at(body.span_info@, i);
        statement_sound(s, frame, result, span, body.body[i]);
        let (s1, done) = statement(s, frame, result, span, body.body[i]);
        if done.is_ok() {
            body_from_sound(s1, frame, result, body, i + 1);
        }
    }
}

/// Lowering the types of parameters emits nothing.
pub proof fn lower_params_keeps(s: State, arguments: Seq<FunctionArgument>, i: int)
    ensures
        keeps(s, lower_params(s, arguments, i).0),
    decreases arguments.len() - i,
{
    if 0 <= i < arguments.len() {
        lower_cached_type_keeps(s, undefined_span(), arguments[i].ty);
        let (s1, lowered) = lower_cached_type(s, undefined_span(), arguments[i].ty);
        if lowered.is_ok() {
            lower_params_keeps(s1, arguments, i + 1);
        }
    }
}

/// Declaring a function keeps the state sound, and the function is at
/// hand afterwards.
pub proof fn declare_function_sound(s: State, index: usize, declared: Function)
    requires
        sound(s),
    ensures
        follows(s, declare_function(s, index, declared).0),
        declare_function(s, index, declared).1 matches Ok(value) ==> known(
            declare_function(s, index, declared).0,
            value,
        ),
{
    lower_params_keeps(s, declared.arguments@, 0);
    let (s1, params) = lower_params(s, declared.arguments@, 0);
    if let Ok(params) = params {
        if let Some(result) = declared.result {
            lower_cached_type_keeps(s1, undefined_span(), result.ty);
        }
        let (s2, result) = lower_result(s1, declared);
        if let Ok(result) = result {
            if declared.name.is_some() {
                let inst = Inst::Function {
                    function: index,
                    ty: NativeType::Function { result: Box::new(result), params },
                };
                let (s3, value) = s2.emit(inst);
                emit_is_sound(s2, inst);
                emit_is_sound(s3, Inst::EntryBlock { function: value });
            }
        }
    }
}

/// Lowering the local variables of a function keeps the state sound, and
/// the variables are at hand afterwards.
pub proof fn locals_from_sound(
    s: State,
    lowered: Function,
    params: Seq<Typed>,
    locals: Seq<Typed>,
    i: int,
)
    requires
        sound(s),
        all_known(s, locals),
        all_known(s, params),
    ensures
        follows(s, locals_from(s, lowered, params, locals, i).0),
        locals_from(s, lowered, params, locals, i).1 matches Ok(all) ==> all_known(
            locals_from(s, lowered, params, locals, i).0,
            all,
        ),
    decreases lowered.local_variables.items().len() - i,
{
    if 0 <= i < lowered.local_variables.items().len() {
        let ty = lowered.local_variables.items()[i].ty;
        lower_cached_pointer_type_keeps(s, s.type_span(ty), ty);
        let (s1, storage) = lower_cached_pointer_type(s, s.type_span(ty), ty);
        if let Ok(native) = storage {
            let (s2, pointer) = s1.emit(Inst::Alloca { ty: native });
            emit_is_sound(s1, Inst::Alloca { ty: native });
            let (s3, stored) = match lowered.local_variables.items()[i].init {
                Some(init) => store(
                    s2,
                    Some(frame(lowered, locals, params)),
                    span_at(lowered.local_variables.spans@, i),
                    pointer,
                    init,
                ),
                None => (s2, Ok(())),
            };
            if let Some(init) = lowered.local_variables.items()[i].init {
                store_sound(
                    s2,
                    Some(frame(lowered, locals, params)),
                    span_at(lowered.local_variables.spans@, i),
                    pointer,
                    init,
                );
            }
            if stored.is_ok() {
                let (s4, handle) = s3.intern(
                    TypeInner::Pointer { base: ty, space: AddressSpace::Function },
                    s3.type_span(ty),
                );
                if let Ok(handle) = handle {
                    locals_from_sound(s4, lowered, params, locals.push((pointer, handle)), i + 1);
                }
            }
        }
    }
}

/// Binding the parameters of a declared function that is at hand keeps
/// the state sound, and the parameters are at hand afterwards.
pub proof fn params_from_sound(
    s: State,
    declared: NativeValue,
    arguments: Seq<FunctionArgument>,
    params: Seq<Typed>,
    i: int,
)
    requires
        sound(s),
        known(s, declared),
        all_known(s, params),
    ensures
        follows(s, params_from(s, declared, arguments, params, i).0),
        params_from(s, declared, arguments, params, i).1 matches Ok(all) ==> all_known(
            params_from(s, declared, arguments, params, i).0,
            all,
        ),
        params_from(s, declared, arguments, params, i).0.expr_cache == s.expr_cache,
    decreases arguments.len() - i,
{
    if 0 <= i < arguments.len() && i <= u32::MAX {
        let inst = Inst::Parameter { function: declared, index: i as u32 };
        let (s1, param) = s.emit(inst);
        emit_is_sound(s, inst);
        params_from_sound(s1, declared, arguments, params.push((param, arguments[i].ty)), i + 1);
    }
}

/// Lowering a function keeps the state sound.
pub proof fn function_sound(s: State, index: usize, lowered: Function)
    requires
        sound(s),
    ensures
        follows(s, function(s, index, lowered).0),
{
    let s0 = State { expr_cache: Map::empty(), ..s };
    declare_function_sound(s0, index, lowered);
    let (s1, declared) = declare_function(s0, index, lowered);
    if let Ok(declared) = declared {
        locals_from_sound(s1, lowered, Seq::empty(), Seq::empty(), 0);
        let (s2, locals) = locals_from(s1, lowered, Seq::empty(), Seq::empty(), 0);
        if let Ok(locals) = locals {
            params_from_sound(s2, declared, lowered.arguments@, Seq::empty(), 0);
            let (s3, params) = params_from(s2, declared, lowered.arguments@, Seq::empty(), 0);
            if let Ok(params) = params {
                body_from_sound(
                    s3,
                    frame(lowered, locals, params),
                    declared_result(lowered),
                    lowered.body,
                    0,
                );
            }
        }
    }
}

/// Lowering functions keeps the state sound.
pub proof fn functions_from_sound(s: State, functions: Seq<Function>, i: int)
    requires
        sound(s),
    ensures
        follows(s, functions_from(s, functions, i).0),
    decreases functions.len() - i,
{
    if 0 <= i < functions.len() {
        function_sound(s, i as usize, functions[i]);
        let (s1, done) = function(s, i as usize, functions[i]);
        if done.is_ok() {
            functions_from_sound(s1, functions, i + 1);
        }
    }
}

/// Lowering global variables keeps the state sound.
pub proof fn globals_from_sound(s: State, variables: Seq<GlobalVariable>, i: int)
    requires
        sound(s),
    ensures
        follows(s, globals_from(s, variables, i).0),
    decreases variables.len() - i,
{
    if 0 <= i < variables.len() && variables[i].name.is_some() {
        let variable = variables[i];
        lower_cached_type_keeps(s, undefined_span(), variable.ty);
        let (s1, lowered) = lower_cached_type(s, undefined_span(), variable.ty);
        if let Ok(native) = lowered {
            let inst = Inst::Global { variable: i as usize, ty: native };
            let (s2, global) = s1.emit(inst);
            emit_is_sound(s1, inst);
            if let Some(init) = variable.init {
                eval_cached_sound(s2, None, init);
                let (s2a, value) = eval_cached(s2, None, init);
                if let Ok((value, _)) = value {
                    if is_constant(s2a.code, value) {
                        emit_is_sound(s2a, Inst::Initializer { global, value });
                    }
                }
            }
            let (s3, initialized) = initializer(s2, global, variable.init);
            if initialized.is_ok() {
                let (s4, handle) = s3.intern(
                    TypeInner::Pointer { base: variable.ty, space: variable.space },
                    s3.type_span(variable.ty),
                );
                if let Ok(handle) = handle {
                    let s5 = State { globals: s4.globals.push((global, handle)), ..s4 };
                    globals_from_sound(s5, variables, i + 1);
                }
            }
        }
    }
}

/// Generating from a sound state leads to a sound state.
pub proof fn generation_sound(s: State, functions: Seq<Function>)
    requires
        sound(s),
    ensures
        sound(generated(s, functions).0),
{
    globals_from_sound(s, s.global_variables, 0);
    let (s1, done) = globals_from(s, s.global_variables, 0);
    if done.is_ok() {
        functions_from_sound(s1, functions, 0);
    }
}

/// The code of a generated module refers only backwards: every operand
/// of each of its entries is the value of an entry before it.
pub proof fn generated_code_refers_back(
    src: SrcModule,
    file_name: Seq<char>,
    target: TargetInfo,
    functions: Seq<Function>,
)
    ensures
        scoped(generated(initial(src, file_name, target), functions).0.code),
{
    generation_sound(initial(src, file_name, target), functions);
}

} // verus!
