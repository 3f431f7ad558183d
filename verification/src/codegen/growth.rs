//! What lowering leaves alone.
//!
//! No step of the lowering changes the shader it reads or the description
//! of the target. The types of the module, the code and the caches only
//! grow: a handle or a value that stood for something before a step stands
//! for the same afterwards.

use crate::codegen::assembly::{
    declare_function, function, functions_from, generated, globals_from, initializer,
    locals_from, lower_params, lower_result, params_from,
};
use crate::codegen::error::Halt;
use crate::codegen::expressions::access::{
    access, access_pointer, access_value, constant_of, index_value, known_index, lanes_from,
    remapped, with_table,
};
use crate::codegen::expressions::binary::{
    binary, binary_on, component_wise, instruction, matrix_columns, multiply,
};
use crate::codegen::expressions::compose::{compose, compose_items, composite_of, Composite};
use crate::codegen::expressions::index::Index;
use crate::codegen::expressions::literal::{literal, literal_parts};
use crate::codegen::expressions::load::{load, load_from, store, store_to};
use crate::codegen::expressions::location::{exprs_at, rank, span_of, Frame};
use crate::codegen::expressions::splat::{splat, splat_lanes, splat_value};
use crate::codegen::expressions::swizzle::{mask_lanes, shuffle, swizzle};
use crate::codegen::expressions::{eval, eval_cached, lanes_of, operand, zero_value};
use crate::codegen::native::{Inst, NativeType, NativeValue, Opcode};
use crate::codegen::statements::{body_from, emit_range, statement, statements};
use crate::codegen::types::{
    item, lower_cached_pointer_type, lower_cached_type, lower_members, lower_type, pointee,
    storage_override,
};
use crate::codegen::{State, Typed};
use crate::ir::{
    AddressSpace, BinaryOperator, Block, ExprHandle, Expression, Function, FunctionArgument,
    GlobalVariable, Span, Statement, TypeHandle, TypeInner, VectorSize,
};
use vstd::prelude::*;

verus! {

/// Whether `longer` begins with `shorter`.
pub open spec fn begins_with<T>(longer: Seq<T>, shorter: Seq<T>) -> bool {
    shorter.len() <= longer.len() && forall|i: int|
        0 <= i < shorter.len() ==> #[trigger] longer[i] == shorter[i]
}

/// Whether `larger` holds every entry of `smaller`.
pub open spec fn holds_all<V>(larger: Map<usize, V>, smaller: Map<usize, V>) -> bool {
    forall|key: usize| #[trigger]
        smaller.contains_key(key) ==> larger.contains_key(key) && larger[key] == smaller[key]
}

/// Whether the state `after` is the state `before`, grown: the shader and
/// the target are the same; types, code and lowered globals have only been
/// added at the end; the cached native types are still cached; and every
/// struct that had a table of member indices has one.
pub open spec fn grows(before: State, after: State) -> bool {
    &&& after.name == before.name
    &&& after.source_file == before.source_file
    &&& after.constants == before.constants
    &&& after.constant_spans == before.constant_spans
    &&& after.global_variables == before.global_variables
    &&& after.global_variable_spans == before.global_variable_spans
    &&& after.const_expressions == before.const_expressions
    &&& after.const_expression_spans == before.const_expression_spans
    &&& after.layouts == before.layouts
    &&& begins_with(after.types, before.types)
    &&& begins_with(after.type_spans, before.type_spans)
    &&& begins_with(after.code, before.code)
    &&& begins_with(after.globals, before.globals)
    &&& holds_all(after.type_cache, before.type_cache)
    &&& holds_all(after.pointer_type_cache, before.pointer_type_cache)
    &&& forall|key: usize| #[trigger]
        before.struct_maps.contains_key(key) ==> after.struct_maps.contains_key(key)
}

/// Whether the state `after` is the state `before`, grown, and still
/// remembers every expression that had been lowered.
pub open spec fn extends(before: State, after: State) -> bool {
    grows(before, after) && holds_all(after.expr_cache, before.expr_cache)
}

/// What extends a state that extends another extends the other.
pub proof fn extends_in_steps(first: State, second: State, third: State)
    requires
        extends(first, second),
        extends(second, third),
    ensures
        extends(first, third),
{
}

/// What has grown from a state that has grown from another has grown from
/// the other.
pub proof fn grows_in_steps(first: State, second: State, third: State)
    requires
        grows(first, second),
        grows(second, third),
    ensures
        grows(first, third),
{
}

/// Emitting an instruction extends the state.
pub proof fn emit_extends(s: State, inst: Inst)
    ensures
        extends(s, s.emit(inst).0),
{
}

/// Inserting a type extends the state.
pub proof fn intern_extends(s: State, inner: TypeInner, span: Span)
    ensures
        extends(s, s.intern(inner, span).0),
{
}

/// Lowering the members of a struct extends the state.
pub proof fn lower_members_extends(
    s: State,
    span: Span,
    ty: TypeHandle,
    slots: Seq<(TypeHandle, u32)>,
    i: int,
    end: u32,
    table: Seq<u32>,
    next: u32,
)
    ensures
        extends(s, lower_members(s, span, ty, slots, i, end, table, next).0),
    decreases ty.0, 0nat, slots.len() - i,
{
    if 0 <= i < slots.len() {
        let (member, offset) = slots[i];
        if member.0 < ty.0 {
            lower_cached_type_extends(s, span, member);
            let (s1, lowered) = lower_cached_type(s, span, member);
            if let Ok(native) = lowered {
                if let Some(size) = crate::codegen::target::abi_size(s1.layouts, native) {
                    let index = if end < offset {
                        next + 1
                    } else {
                        next as int
                    };
                    let start = crate::codegen::types::placed_at(end, offset);
                    lower_members_extends(
                        s1,
                        span,
                        ty,
                        slots,
                        i + 1,
                        (start + size) as u32,
                        table.push(index as u32),
                        (index + 1) as u32,
                    );
                    let s2 = lower_members(
                        s1,
                        span,
                        ty,
                        slots,
                        i + 1,
                        (start + size) as u32,
                        table.push(index as u32),
                        (index + 1) as u32,
                    ).0;
                    extends_in_steps(s, s1, s2);
                }
            }
        }
    }
}

/// Lowering a type extends the state.
pub proof fn lower_type_extends(s: State, span: Span, ty: TypeHandle)
    ensures
        extends(s, lower_type(s, span, ty).0),
    decreases ty.0, 1nat, 0nat,
{
    match s.inner(ty) {
        Ok(TypeInner::Array { base, .. }) => {
            if base.0 < ty.0 {
                lower_cached_type_extends(s, span, base);
            }
        },
        Ok(TypeInner::Struct { members, .. }) => {
            lower_members_extends(
                s,
                span,
                ty,
                crate::codegen::types::member_slots(members@),
                0,
                0,
                Seq::empty(),
                0,
            );
        },
        _ => {},
    }
}

/// Lowering a type through the cache extends the state.
pub proof fn lower_cached_type_extends(s: State, span: Span, ty: TypeHandle)
    ensures
        extends(s, lower_cached_type(s, span, ty).0),
    decreases ty.0, 2nat, 0nat,
{
    if !s.type_cache.contains_key(ty.0) {
        lower_type_extends(s, span, ty);
        let (s1, lowered) = lower_type(s, span, ty);
        extends_in_steps(s, s1, lower_cached_type(s, span, ty).0);
    }
}

/// Lowering a type as storage extends the state.
pub proof fn lower_cached_pointer_type_extends(s: State, span: Span, ty: TypeHandle)
    ensures
        extends(s, lower_cached_pointer_type(s, span, ty).0),
{
    lower_type_extends(s, span, ty);
    let (s1, lowered) = lower_type(s, span, ty);
    if !s.pointer_type_cache.contains_key(ty.0) && storage_override(s, span, ty) == Ok::<
        Option<NativeType>,
        Halt,
    >(None) && !s.type_cache.contains_key(ty.0) {
        extends_in_steps(s, s1, lower_cached_pointer_type(s, span, ty).0);
    }
}

/// Looking up a pointee extends the state.
pub proof fn pointee_extends(s: State, ty: TypeHandle)
    ensures
        extends(s, pointee(s, ty).0),
{
}

/// Looking up the type of an item extends the state.
pub proof fn item_extends(s: State, span: Span, ty: TypeHandle, index: Option<usize>)
    ensures
        extends(s, item(s, span, ty, index).0),
{
}

/// Emitting the lanes of a shuffle mask extends the state.
pub proof fn mask_lanes_extends(s: State, mask: NativeValue, pattern: Seq<usize>, i: u32, lanes: u32)
    ensures
        extends(s, mask_lanes(s, mask, pattern, i, lanes).0),
    decreases lanes - i,
{
    if i < lanes && i < pattern.len() {
        let (s1, lane) = s.emit(Inst::ConstU64(pattern[i as int] as u64));
        let (s2, at) = s1.emit(Inst::ConstU64(i as u64));
        let (s3, next) = s2.emit(Inst::InsertElement { vector: mask, element: lane, index: at });
        mask_lanes_extends(s3, next, pattern, (i + 1) as u32, lanes);
        extends_in_steps(s, s3, mask_lanes(s3, next, pattern, (i + 1) as u32, lanes).0);
    }
}

/// Lowering a swizzle extends the state.
pub proof fn swizzle_extends(
    s: State,
    span: Span,
    size: VectorSize,
    vector: NativeValue,
    ty: TypeHandle,
    pattern: Seq<usize>,
)
    ensures
        extends(s, swizzle(s, span, size, vector, ty, pattern).0),
{
    if let Ok(TypeInner::Vector { scalar, size: in_size }) = s.inner(ty) {
        shuffle_extends(s, span, size, vector, ty, scalar, in_size.count(), pattern);
    }
}

/// Lowering a selection of lanes extends the state.
pub proof fn shuffle_extends(
    s: State,
    span: Span,
    size: VectorSize,
    vector: NativeValue,
    ty: TypeHandle,
    scalar: crate::ir::Scalar,
    limit: u32,
    pattern: Seq<usize>,
)
    ensures
        extends(s, shuffle(s, span, size, vector, ty, scalar, limit, pattern).0),
{
    let (s1, undef) = s.emit(
        Inst::Undef(
            NativeType::Vector { element: Box::new(NativeType::Int(64)), len: size.count() },
        ),
    );
    mask_lanes_extends(s1, undef, pattern, 0, size.count());
    let (s2, mask) = mask_lanes(s1, undef, pattern, 0, size.count());
    lower_cached_type_extends(s2, span, ty);
    let (s3, lowered) = lower_cached_type(s2, span, ty);
    extends_in_steps(s, s2, s3);
}

/// Splatting a value lane by lane extends the state.
pub proof fn splat_lanes_extends(s: State, vector: NativeValue, value: NativeValue, i: u32, lanes: u32)
    ensures
        extends(s, splat_lanes(s, vector, value, i, lanes).0),
    decreases lanes - i,
{
    if i < lanes {
        let (s1, at) = s.emit(Inst::ConstU64(i as u64));
        let (s2, next) = s1.emit(Inst::InsertElement { vector, element: value, index: at });
        splat_lanes_extends(s2, next, value, (i + 1) as u32, lanes);
        extends_in_steps(s, s2, splat_lanes(s2, next, value, (i + 1) as u32, lanes).0);
    }
}

/// Lowering the splat of a value extends the state.
pub proof fn splat_value_extends(
    s: State,
    span: Span,
    value: NativeValue,
    ty: TypeHandle,
    size: VectorSize,
)
    ensures
        extends(s, splat_value(s, span, value, ty, size).0),
{
    if let Ok(TypeInner::Scalar(scalar)) = s.inner(ty) {
        let (s1, interned) = s.intern(TypeInner::Vector { size, scalar }, s.type_span(ty));
        lower_cached_type_extends(s1, span, ty);
        let (s2, lowered) = lower_cached_type(s1, span, ty);
        extends_in_steps(s, s1, s2);
        if let Ok(element) = lowered {
            let (s3, undef) = s2.emit(
                Inst::Undef(NativeType::Vector { element: Box::new(element), len: size.count() }),
            );
            splat_lanes_extends(s3, undef, value, 0, size.count());
            extends_in_steps(s, s3, splat_lanes(s3, undef, value, 0, size.count()).0);
        }
    }
}

/// Applying an operator to the columns of two matrices extends the state.
pub proof fn matrix_columns_extends(
    s: State,
    opcode: Opcode,
    lhs: NativeValue,
    rhs: NativeValue,
    result: NativeValue,
    column: u32,
    columns: u32,
)
    ensures
        extends(s, matrix_columns(s, opcode, lhs, rhs, result, column, columns).0),
    decreases columns - column,
{
    if column < columns {
        let (s1, left) = s.emit(Inst::ExtractValue { aggregate: lhs, index: column });
        let (s2, right) = s1.emit(Inst::ExtractValue { aggregate: rhs, index: column });
        let (s3, both) = s2.emit(Inst::Binary { op: opcode, lhs: left, rhs: right });
        let (s4, next) = s3.emit(
            Inst::InsertValue { aggregate: result, element: both, index: column },
        );
        matrix_columns_extends(s4, opcode, lhs, rhs, next, (column + 1) as u32, columns);
        extends_in_steps(
            s,
            s4,
            matrix_columns(s4, opcode, lhs, rhs, next, (column + 1) as u32, columns).0,
        );
    }
}

/// Lowering an operator on two lowered operands extends the state.
pub proof fn binary_on_extends(s: State, span: Span, op: BinaryOperator, lhs: Typed, rhs: Typed)
    ensures
        extends(s, component_wise(s, span, op, lhs, rhs).0),
        extends(s, multiply(s, span, lhs, rhs).0),
        extends(s, binary_on(s, span, op, lhs, rhs).0),
{
    component_wise_extends(s, span, op, lhs, rhs);
    component_wise_extends(s, span, BinaryOperator::Multiply, lhs, rhs);
}

/// Lowering an operator component by component extends the state.
pub proof fn component_wise_extends(
    s: State,
    span: Span,
    op: BinaryOperator,
    lhs: Typed,
    rhs: Typed,
)
    ensures
        extends(s, component_wise(s, span, op, lhs, rhs).0),
{
    if lhs.1 == rhs.1 {
        if let Ok(TypeInner::Matrix { columns, scalar, .. }) = s.inner(lhs.1) {
            if let Some(opcode) = instruction(op, scalar.kind) {
                lower_cached_type_extends(s, span, lhs.1);
                let (s1, lowered) = lower_cached_type(s, span, lhs.1);
                if let Ok(native) = lowered {
                    let (s2, undef) = s1.emit(Inst::Undef(native));
                    matrix_columns_extends(s2, opcode, lhs.0, rhs.0, undef, 0, columns.count());
                    extends_in_steps(
                        s,
                        s2,
                        matrix_columns(s2, opcode, lhs.0, rhs.0, undef, 0, columns.count()).0,
                    );
                }
            }
        }
    }
}

/// Lowering a load through a lowered pointer extends the state.
pub proof fn load_from_extends(s: State, span: Span, pointer: NativeValue, ty: TypeHandle)
    ensures
        extends(s, load_from(s, span, pointer, ty).0),
{
    let (s1, target) = pointee(s, ty);
    if let Ok(Some((inner, _))) = target {
        lower_cached_type_extends(s1, span, inner);
        extends_in_steps(s, s1, lower_cached_type(s1, span, inner).0);
    }
}

/// Lowering a store of a lowered value extends the state.
pub proof fn store_to_extends(
    s: State,
    span: Span,
    pointer: NativeValue,
    value: NativeValue,
    ty: TypeHandle,
)
    ensures
        extends(s, store_to(s, span, pointer, value, ty).0),
{
}

/// Lowering an operand extends the state.
pub proof fn operand_extends(s: State, loc: Option<Frame>, bound: ExprHandle, expr: ExprHandle)
    ensures
        extends(s, operand(s, loc, bound, expr).0),
    decreases rank(loc), bound.0, 0nat, 0nat,
{
    if expr.0 < bound.0 {
        eval_cached_extends(s, loc, expr);
    }
}

/// Putting components into a value extends the state.
pub proof fn compose_items_extends(
    s: State,
    loc: Option<Frame>,
    bound: ExprHandle,
    span: Span,
    kind: Composite,
    components: Seq<ExprHandle>,
    table: Seq<u32>,
    i: int,
    value: NativeValue,
)
    ensures
        extends(s, compose_items(s, loc, bound, span, kind, components, table, i, value).0),
    decreases rank(loc), bound.0, 0nat, 1 + components.len() - i,
{
    if !(i < 0 || i >= components.len() || (kind == Composite::Struct && i >= table.len())) && i
        <= u32::MAX {
        operand_extends(s, loc, bound, components[i]);
        let (s1, lowered) = operand(s, loc, bound, components[i]);
        if let Ok((component, ty)) = lowered {
            let next_state = match kind {
                Composite::Vector => {
                    let (s2, at) = s1.emit(Inst::ConstU64(i as u64));
                    Some(
                        s2.emit(
                            Inst::InsertElement { vector: value, element: component, index: at },
                        ),
                    )
                },
                Composite::Matrix => match s1.inner(ty) {
                    Ok(TypeInner::Vector { .. }) => Some(
                        s1.emit(
                            Inst::InsertValue {
                                aggregate: value,
                                element: component,
                                index: i as u32,
                            },
                        ),
                    ),
                    _ => None,
                },
                Composite::Array => Some(
                    s1.emit(
                        Inst::InsertValue { aggregate: value, element: component, index: i as u32 },
                    ),
                ),
                Composite::Struct => Some(
                    s1.emit(
                        Inst::InsertValue {
                            aggregate: value,
                            element: component,
                            index: table[i],
                        },
                    ),
                ),
            };
            if let Some((s3, next)) = next_state {
                compose_items_extends(s3, loc, bound, span, kind, components, table, i + 1, next);
                extends_in_steps(
                    s,
                    s3,
                    compose_items(s3, loc, bound, span, kind, components, table, i + 1, next).0,
                );
            }
        }
    }
}

/// Lowering a composition extends the state.
pub proof fn compose_extends(
    s: State,
    loc: Option<Frame>,
    bound: ExprHandle,
    span: Span,
    ty: TypeHandle,
    components: Seq<ExprHandle>,
)
    ensures
        extends(s, compose(s, loc, bound, span, ty, components).0),
    decreases rank(loc), bound.0, 0nat, 2 + components.len(),
{
    if let Ok(inner) = s.inner(ty) {
        if let Some(kind) = composite_of(inner) {
            lower_cached_type_extends(s, span, ty);
            let (s1, lowered) = lower_cached_type(s, span, ty);
            if let Ok(native) = lowered {
                let (s2, undef) = s1.emit(Inst::Undef(native));
                if !(kind == Composite::Struct && !s2.struct_maps.contains_key(ty.0)) {
                    let table = if kind == Composite::Struct {
                        s2.struct_maps[ty.0]
                    } else {
                        Seq::empty()
                    };
                    compose_items_extends(s2, loc, bound, span, kind, components, table, 0, undef);
                    extends_in_steps(
                        s,
                        s2,
                        compose_items(s2, loc, bound, span, kind, components, table, 0, undef).0,
                    );
                }
            }
        }
    }
}

/// Lowering an index extends the state.
pub proof fn index_value_extends(
    s: State,
    loc: Option<Frame>,
    bound: ExprHandle,
    index: Index,
    narrow: bool,
)
    ensures
        extends(s, index_value(s, loc, bound, index, narrow).0),
    decreases rank(loc), bound.0, 0nat, 1nat,
{
    if let Index::Dynamic(expr) = index {
        operand_extends(s, loc, bound, expr);
    }
}

/// Lowering an access through a pointer extends the state.
pub proof fn access_pointer_extends(
    s: State,
    loc: Option<Frame>,
    bound: ExprHandle,
    span: Span,
    base: NativeValue,
    inner: TypeHandle,
    space: AddressSpace,
    index: Index,
    native: Index,
)
    ensures
        extends(s, access_pointer(s, loc, bound, span, base, inner, space, index, native).0),
    decreases rank(loc), bound.0, 0nat, 2nat,
{
    let narrow = match native {
        Index::Constant(_) => crate::codegen::expressions::access::is_struct(s, inner),
        Index::Dynamic(_) => Ok(false),
    };
    if let Ok(narrow) = narrow {
        index_value_extends(s, loc, bound, native, narrow);
        let (s1, at) = index_value(s, loc, bound, native, narrow);
        if let Ok(at) = at {
            lower_cached_type_extends(s1, span, inner);
            let (s2, lowered) = lower_cached_type(s1, span, inner);
            extends_in_steps(s, s1, s2);
            if let Ok(native_type) = lowered {
                let (s3, found) = item(s2, span, inner, constant_of(index));
                extends_in_steps(s, s2, s3);
            }
        }
    }
}

/// Lowering an access to an item of a value extends the state.
pub proof fn access_value_extends(
    s: State,
    loc: Option<Frame>,
    bound: ExprHandle,
    span: Span,
    base: NativeValue,
    ty: TypeHandle,
    index: Index,
    native: Index,
)
    ensures
        extends(s, access_value(s, loc, bound, span, base, ty, index, native).0),
    decreases rank(loc), bound.0, 0nat, 2nat,
{
    index_value_extends(s, loc, bound, native, false);
    let (s1, at) = index_value(s, loc, bound, native, false);
    if let Ok(at) = at {
        let known = known_index(s1, loc, native);
        let (s2, found) = item(
            s1,
            span,
            ty,
            match known_index(s1, loc, index) {
                Some(k) => Some(k as usize),
                None => None,
            },
        );
        extends_in_steps(s, s1, s2);
        if let Ok(item_ty) = found {
            if let Ok(TypeInner::Matrix { rows, columns, scalar }) = s2.inner(ty) {
                if let Some(k) = known {
                    if k * rows.count() + 3 <= usize::MAX {
                        let lanes = lanes_from((k * rows.count()) as usize);
                        let limit = (rows.count() * columns.count()) as u32;
                        shuffle_extends(s2, span, rows, base, ty, scalar, limit, lanes);
                        extends_in_steps(
                            s,
                            s2,
                            shuffle(s2, span, rows, base, ty, scalar, limit, lanes).0,
                        );
                    }
                }
            }
        }
    }
}

/// Lowering an access extends the state.
pub proof fn access_extends(
    s: State,
    loc: Option<Frame>,
    bound: ExprHandle,
    span: Span,
    base: ExprHandle,
    index: Index,
)
    ensures
        extends(s, access(s, loc, bound, span, base, index).0),
    decreases rank(loc), bound.0, 0nat, 3nat,
{
    operand_extends(s, loc, bound, base);
    let (s1, lowered) = operand(s, loc, bound, base);
    if let Ok((value, ty)) = lowered {
        let (s2, target) = pointee(s1, ty);
        extends_in_steps(s, s1, s2);
        match target {
            Ok(Some((inner, space))) => {
                lower_cached_type_extends(s2, span, inner);
                let (s3, ready) = with_table(s2, span, inner, index);
                extends_in_steps(s, s2, s3);
                if ready.is_ok() {
                    if let Ok(native) = remapped(s3, inner, index) {
                        access_pointer_extends(
                            s3,
                            loc,
                            bound,
                            span,
                            value,
                            inner,
                            space,
                            index,
                            native,
                        );
                        extends_in_steps(
                            s,
                            s3,
                            access_pointer(s3, loc, bound, span, value, inner, space, index, native).0,
                        );
                    }
                }
            },
            Ok(None) => {
                if let Ok(native) = remapped(s2, ty, index) {
                    access_value_extends(s2, loc, bound, span, value, ty, index, native);
                    extends_in_steps(
                        s,
                        s2,
                        access_value(s2, loc, bound, span, value, ty, index, native).0,
                    );
                }
            },
            _ => {},
        }
    }
}

/// Lowering the splat of an expression extends the state.
pub proof fn splat_extends(
    s: State,
    loc: Option<Frame>,
    bound: ExprHandle,
    span: Span,
    value: ExprHandle,
    size: VectorSize,
)
    ensures
        extends(s, splat(s, loc, bound, span, value, size).0),
    decreases rank(loc), bound.0, 0nat, 1nat,
{
    operand_extends(s, loc, bound, value);
    let (s1, lowered) = operand(s, loc, bound, value);
    if let Ok((native, ty)) = lowered {
        splat_value_extends(s1, span, native, ty, size);
        extends_in_steps(s, s1, splat_value(s1, span, native, ty, size).0);
    }
}

/// Lowering the load of an expression extends the state.
pub proof fn load_extends(
    s: State,
    loc: Option<Frame>,
    bound: ExprHandle,
    span: Span,
    pointer: ExprHandle,
)
    ensures
        extends(s, load(s, loc, bound, span, pointer).0),
    decreases rank(loc), bound.0, 0nat, 1nat,
{
    operand_extends(s, loc, bound, pointer);
    let (s1, lowered) = operand(s, loc, bound, pointer);
    if let Ok((value, ty)) = lowered {
        load_from_extends(s1, span, value, ty);
        extends_in_steps(s, s1, load_from(s1, span, value, ty).0);
    }
}

/// Lowering an operator on two expressions extends the state.
pub proof fn binary_extends(
    s: State,
    loc: Option<Frame>,
    bound: ExprHandle,
    span: Span,
    op: BinaryOperator,
    left: ExprHandle,
    right: ExprHandle,
)
    ensures
        extends(s, binary(s, loc, bound, span, op, left, right).0),
    decreases rank(loc), bound.0, 0nat, 1nat,
{
    operand_extends(s, loc, bound, left);
    let (s1, lhs) = operand(s, loc, bound, left);
    if let Ok(lhs) = lhs {
        operand_extends(s1, loc, bound, right);
        let (s2, rhs) = operand(s1, loc, bound, right);
        extends_in_steps(s, s1, s2);
        if let Ok(rhs) = rhs {
            binary_on_extends(s2, span, op, lhs, rhs);
            extends_in_steps(s, s2, binary_on(s2, span, op, lhs, rhs).0);
        }
    }
}

/// Lowering a literal extends the state.
pub proof fn literal_extends(s: State, span: Span, value: crate::ir::Literal)
    ensures
        extends(s, literal(s, span, value).0),
{
    if let Some((inst, scalar)) = literal_parts(value) {
        let (s1, constant) = s.emit(inst);
        extends_in_steps(s, s1, literal(s, span, value).0);
    }
}

/// Lowering a zero value extends the state.
pub proof fn zero_value_extends(s: State, span: Span, ty: TypeHandle)
    ensures
        extends(s, zero_value(s, span, ty).0),
{
    lower_cached_type_extends(s, span, ty);
    let (s1, lowered) = lower_cached_type(s, span, ty);
    extends_in_steps(s, s1, zero_value(s, span, ty).0);
}

/// Lowering an expression extends the state.
pub proof fn eval_extends(s: State, loc: Option<Frame>, expr: ExprHandle)
    ensures
        extends(s, eval(s, loc, expr).0),
    decreases rank(loc), expr.0, 1nat, 0nat,
{
    if expr.0 < exprs_at(s, loc).len() {
        let span = span_of(s, loc, expr);
        match exprs_at(s, loc)[expr.0 as int] {
            Expression::Literal(value) => {
                literal_extends(s, span, value);
            },
            Expression::Constant(constant) => {
                if constant < s.constants.len() && !(loc.is_none()
                    && s.constants[constant as int].init.0 >= expr.0) {
                    eval_extends(s, None, s.constants[constant as int].init);
                }
            },
            Expression::ZeroValue(ty) => {
                zero_value_extends(s, span, ty);
            },
            Expression::Compose { ty, components } => {
                compose_extends(s, loc, expr, span, ty, components@);
            },
            Expression::Access { base, index } => {
                access_extends(s, loc, expr, span, base, Index::Dynamic(index));
            },
            Expression::AccessIndex { base, index } => {
                access_extends(s, loc, expr, span, base, Index::Constant(index));
            },
            Expression::Splat { size, value } => {
                splat_extends(s, loc, expr, span, value, size);
            },
            Expression::Swizzle { size, vector, pattern } => {
                operand_extends(s, loc, expr, vector);
                let (s1, lowered) = operand(s, loc, expr, vector);
                if let Ok((value, ty)) = lowered {
                    swizzle_extends(s1, span, size, value, ty, lanes_of(pattern));
                    extends_in_steps(
                        s,
                        s1,
                        swizzle(s1, span, size, value, ty, lanes_of(pattern)).0,
                    );
                }
            },
            Expression::Load { pointer } => {
                load_extends(s, loc, expr, span, pointer);
            },
            Expression::Binary { op, left, right } => {
                binary_extends(s, loc, expr, span, op, left, right);
            },
            _ => {},
        }
    }
}

/// Lowering an expression through the cache extends the state: what had
/// been lowered stays lowered to the same value.
pub proof fn eval_cached_extends(s: State, loc: Option<Frame>, expr: ExprHandle)
    ensures
        extends(s, eval_cached(s, loc, expr).0),
    decreases rank(loc), expr.0, 2nat, 0nat,
{
    if loc.is_none() || !s.expr_cache.contains_key(expr.0) {
        eval_extends(s, loc, expr);
        extends_in_steps(s, eval(s, loc, expr).0, eval_cached(s, loc, expr).0);
    }
}

/// Lowering a store of an expression extends the state.
pub proof fn store_extends(
    s: State,
    loc: Option<Frame>,
    span: Span,
    pointer: NativeValue,
    value: ExprHandle,
)
    ensures
        extends(s, store(s, loc, span, pointer, value).0),
{
    eval_cached_extends(s, loc, value);
    let (s1, lowered) = eval_cached(s, loc, value);
    if let Ok((native, ty)) = lowered {
        extends_in_steps(s, s1, store_to(s1, span, pointer, native, ty).0);
    }
}

/// Lowering a range of expressions extends the state.
pub proof fn emit_range_extends(s: State, frame: Frame, next: usize, end: usize)
    ensures
        extends(s, emit_range(s, frame, next, end).0),
    decreases end - next,
{
    if next < end {
        eval_cached_extends(s, Some(frame), ExprHandle(next));
        let (s1, lowered) = eval_cached(s, Some(frame), ExprHandle(next));
        if lowered.is_ok() {
            emit_range_extends(s1, frame, (next + 1) as usize, end);
            extends_in_steps(s, s1, emit_range(s1, frame, (next + 1) as usize, end).0);
        }
    }
}

/// Lowering the statements of a block extends the state.
pub proof fn statements_extends(
    s: State,
    frame: Frame,
    result: Option<TypeHandle>,
    span: Span,
    body: Vec<Statement>,
    i: int,
)
    ensures
        extends(s, statements(s, frame, result, span, body, i).0),
    decreases body, body.len() - i,
{
    if 0 <= i < body.len() {
        statement_extends(s, frame, result, span, body[i]);
        let (s1, done) = statement(s, frame, result, span, body[i]);
        if done.is_ok() {
            statements_extends(s1, frame, result, span, body, i + 1);
            extends_in_steps(s, s1, statements(s1, frame, result, span, body, i + 1).0);
        }
    }
}

/// Lowering a statement extends the state.
pub proof fn statement_extends(
    s: State,
    frame: Frame,
    result: Option<TypeHandle>,
    span: Span,
    stmt: Statement,
)
    ensures
        extends(s, statement(s, frame, result, span, stmt).0),
    decreases stmt, 0nat,
{
    match stmt {
        Statement::Emit { start, end } => {
            emit_range_extends(s, frame, start, end);
        },
        Statement::Block(block) => {
            statements_extends(s, frame, result, span, block.body, 0);
        },
        Statement::Return { value } => {
            if let Some(value) = value {
                eval_cached_extends(s, Some(frame), value);
            }
        },
        Statement::Store { pointer, value } => {
            eval_cached_extends(s, Some(frame), pointer);
            let (s1, lowered) = eval_cached(s, Some(frame), pointer);
            if let Ok((address, _)) = lowered {
                store_extends(s1, Some(frame), span, address, value);
                extends_in_steps(s, s1, store(s1, Some(frame), span, address, value).0);
            }
        },
        Statement::Other(_) => {},
    }
}

/// Lowering the body of a function extends the state.
pub proof fn body_from_extends(s: State, frame: Frame, result: Option<TypeHandle>, body: Block, i: int)
    ensures
        extends(s, body_from(s, frame, result, body, i).0),
    decreases body.body.len() - i,
{
    if 0 <= i < body.body.len() {
        let span = crate::ir::span_at(body.span_info@, i);
        statement_extends(s, frame, result, span, body.body[i]);
        let (s1, done) = statement(s, frame, result, span, body.body[i]);
        if done.is_ok() {
            body_from_extends(s1, frame, result, body, i + 1);
            extends_in_steps(s, s1, body_from(s1, frame, result, body, i + 1).0);
        }
    }
}

/// Lowering the types of parameters extends the state.
pub proof fn lower_params_extends(s: State, arguments: Seq<FunctionArgument>, i: int)
    ensures
        extends(s, lower_params(s, arguments, i).0),
    decreases arguments.len() - i,
{
    if 0 <= i < arguments.len() {
        lower_cached_type_extends(s, crate::ir::undefined_span(), arguments[i].ty);
        let (s1, lowered) = lower_cached_type(s, crate::ir::undefined_span(), arguments[i].ty);
        if lowered.is_ok() {
            lower_params_extends(s1, arguments, i + 1);
            extends_in_steps(s, s1, lower_params(s1, arguments, i + 1).0);
        }
    }
}

/// Declaring a function extends the state.
pub proof fn declare_function_extends(s: State, index: usize, function: Function)
    ensures
        extends(s, declare_function(s, index, function).0),
{
    lower_params_extends(s, function.arguments@, 0);
    let (s1, params) = lower_params(s, function.arguments@, 0);
    if params.is_ok() {
        if let Some(result) = function.result {
            lower_cached_type_extends(s1, crate::ir::undefined_span(), result.ty);
        }
        let (s2, result) = lower_result(s1, function);
        extends_in_steps(s, s1, s2);
    }
}

/// Lowering the local variables of a function extends the state.
pub proof fn locals_from_extends(
    s: State,
    function: Function,
    params: Seq<Typed>,
    locals: Seq<Typed>,
    i: int,
)
    ensures
        extends(s, locals_from(s, function, params, locals, i).0),
    decreases function.local_variables.items().len() - i,
{
    if 0 <= i < function.local_variables.items().len() {
        let ty = function.local_variables.items()[i].ty;
        lower_cached_pointer_type_extends(s, s.type_span(ty), ty);
        let (s1, lowered) = lower_cached_pointer_type(s, s.type_span(ty), ty);
        if let Ok(native) = lowered {
            let (s2, pointer) = s1.emit(Inst::Alloca { ty: native });
            let (s3, stored) = match function.local_variables.items()[i].init {
                Some(init) => store(
                    s2,
                    Some(crate::codegen::assembly::frame(function, locals, params)),
                    crate::ir::span_at(function.local_variables.spans@, i),
                    pointer,
                    init,
                ),
                None => (s2, Ok(())),
            };
            if let Some(init) = function.local_variables.items()[i].init {
                store_extends(
                    s2,
                    Some(crate::codegen::assembly::frame(function, locals, params)),
                    crate::ir::span_at(function.local_variables.spans@, i),
                    pointer,
                    init,
                );
            }
            extends_in_steps(s, s2, s3);
            if stored.is_ok() {
                let (s4, handle) = s3.intern(
                    TypeInner::Pointer { base: ty, space: AddressSpace::Function },
                    s3.type_span(ty),
                );
                extends_in_steps(s, s3, s4);
                if let Ok(handle) = handle {
                    locals_from_extends(s4, function, params, locals.push((pointer, handle)), i + 1);
                    extends_in_steps(
                        s,
                        s4,
                        locals_from(s4, function, params, locals.push((pointer, handle)), i + 1).0,
                    );
                }
            }
        }
    }
}

/// Binding the parameters of a function extends the state.
pub proof fn params_from_extends(
    s: State,
    declared: NativeValue,
    arguments: Seq<FunctionArgument>,
    params: Seq<Typed>,
    i: int,
)
    ensures
        extends(s, params_from(s, declared, arguments, params, i).0),
    decreases arguments.len() - i,
{
    if 0 <= i < arguments.len() && i <= u32::MAX {
        let (s1, param) = s.emit(Inst::Parameter { function: declared, index: i as u32 });
        params_from_extends(s1, declared, arguments, params.push((param, arguments[i].ty)), i + 1);
        extends_in_steps(
            s,
            s1,
            params_from(s1, declared, arguments, params.push((param, arguments[i].ty)), i + 1).0,
        );
    }
}

/// Lowering a function makes the state grow. What was remembered of the
/// expressions of the function before is forgotten.
pub proof fn function_grows(s: State, index: usize, lowered: Function)
    ensures
        grows(s, function(s, index, lowered).0),
{
    let s0 = State { expr_cache: Map::empty(), ..s };
    declare_function_extends(s0, index, lowered);
    let (s1, declared) = declare_function(s0, index, lowered);
    grows_in_steps(s, s0, s1);
    if let Ok(declared) = declared {
        locals_from_extends(s1, lowered, Seq::empty(), Seq::empty(), 0);
        let (s2, locals) = locals_from(s1, lowered, Seq::empty(), Seq::empty(), 0);
        grows_in_steps(s, s1, s2);
        if let Ok(locals) = locals {
            params_from_extends(s2, declared, lowered.arguments@, Seq::empty(), 0);
            let (s3, params) = params_from(s2, declared, lowered.arguments@, Seq::empty(), 0);
            grows_in_steps(s, s2, s3);
            if let Ok(params) = params {
                let frame = crate::codegen::assembly::frame(lowered, locals, params);
                let result = crate::codegen::assembly::declared_result(lowered);
                body_from_extends(s3, frame, result, lowered.body, 0);
                grows_in_steps(s, s3, body_from(s3, frame, result, lowered.body, 0).0);
            }
        }
    }
}

/// Lowering functions makes the state grow.
pub proof fn functions_from_grows(s: State, functions: Seq<Function>, i: int)
    ensures
        grows(s, functions_from(s, functions, i).0),
    decreases functions.len() - i,
{
    if 0 <= i < functions.len() {
        function_grows(s, i as usize, functions[i]);
        let (s1, done) = function(s, i as usize, functions[i]);
        if done.is_ok() {
            functions_from_grows(s1, functions, i + 1);
            grows_in_steps(s, s1, functions_from(s1, functions, i + 1).0);
        }
    }
}

/// Lowering global variables extends the state.
pub proof fn globals_from_extends(s: State, variables: Seq<GlobalVariable>, i: int)
    ensures
        extends(s, globals_from(s, variables, i).0),
    decreases variables.len() - i,
{
    if 0 <= i < variables.len() && variables[i].name.is_some() {
        let variable = variables[i];
        lower_cached_type_extends(s, crate::ir::undefined_span(), variable.ty);
        let (s1, lowered) = lower_cached_type(s, crate::ir::undefined_span(), variable.ty);
        if let Ok(native) = lowered {
            let (s2, global) = s1.emit(Inst::Global { variable: i as usize, ty: native });
            if let Some(init) = variable.init {
                eval_cached_extends(s2, None, init);
            }
            let (s3, initialized) = initializer(s2, global, variable.init);
            extends_in_steps(s, s2, s3);
            if initialized.is_ok() {
                let (s4, handle) = s3.intern(
                    TypeInner::Pointer { base: variable.ty, space: variable.space },
                    s3.type_span(variable.ty),
                );
                extends_in_steps(s, s3, s4);
                if let Ok(handle) = handle {
                    let s5 = State { globals: s4.globals.push((global, handle)), ..s4 };
                    extends_in_steps(s, s4, s5);
                    globals_from_extends(s5, variables, i + 1);
                    extends_in_steps(s, s5, globals_from(s5, variables, i + 1).0);
                }
            }
        }
    }
}

/// Generating a module makes the state grow: the shader and the target
/// come out as they went in, and the types that the module had keep their
/// handles.
pub proof fn generation_grows(s: State, functions: Seq<Function>)
    ensures
        grows(s, generated(s, functions).0),
{
    globals_from_extends(s, s.global_variables, 0);
    let (s1, done) = globals_from(s, s.global_variables, 0);
    if done.is_ok() {
        functions_from_grows(s1, functions, 0);
        grows_in_steps(s, s1, functions_from(s1, functions, 0).0);
    }
}

} // verus!
