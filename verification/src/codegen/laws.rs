//! Laws of the lowering: what holds of every module, every state of the
//! generator and every input.

use crate::codegen::error::{failed, Error, Halt, Info};
use crate::codegen::expressions::access::{access, access_pointer, access_value, remapped};
use crate::codegen::growth::lower_type_extends;
use crate::codegen::with_type;
use crate::codegen::expressions::compose::{compose_items, Composite};
use crate::codegen::expressions::operand;
use crate::codegen::expressions::binary::{
    binary_on, component_wise, multiply, product_shape, product_span,
};
use crate::codegen::expressions::eval_cached;
use crate::codegen::growth::holds_all;
use crate::codegen::expressions::index::Index;
use crate::codegen::expressions::location::{span_of, Frame};
use crate::codegen::expressions::swizzle::{first_beyond, mask_lanes, swizzle};
use crate::codegen::native::{Inst, Members, NativeType, NativeValue};
use crate::codegen::statements::return_value;
use crate::codegen::types::{
    lower_cached_type, lower_members, lower_type, member_slots, scalar_type,
};
use crate::codegen::{State, Typed};
use crate::ir::{
    type_position, type_position_finds, AddressSpace, BinaryOperator, ExprHandle, Scalar, Span,
    Type, TypeHandle, TypeInner, VectorSize,
};
use vstd::prelude::*;

verus! {

/// Lowering an expression of a function a second time yields what it
/// yielded the first time, and changes nothing: no code is emitted, no type
/// is inserted, and nothing else is remembered.
pub proof fn second_lowering_repeats_the_first(s: State, frame: Frame, expr: ExprHandle)
    ensures
        ({
            let (after, first) = eval_cached(s, Some(frame), expr);
            first.is_ok() ==> eval_cached(after, Some(frame), expr) == (after, first)
        }),
{
}

/// An expression of a function that has been lowered stays lowered for
/// the rest of the function: in every later state that still remembers
/// what was remembered then, whatever else has been lowered in between,
/// lowering the expression again yields what it yielded the first time and
/// changes nothing.
pub proof fn lowered_expression_stays_lowered(
    s: State,
    frame: Frame,
    expr: ExprHandle,
    later: State,
    later_frame: Frame,
)
    requires
        eval_cached(s, Some(frame), expr).1.is_ok(),
        holds_all(later.expr_cache, eval_cached(s, Some(frame), expr).0.expr_cache),
    ensures
        eval_cached(later, Some(later_frame), expr) == (
            later,
            eval_cached(s, Some(frame), expr).1,
        ),
{
    second_lowering_repeats_the_first(s, frame, expr);
    let (after, first) = eval_cached(s, Some(frame), expr);
}

/// A binary operator on operands of two different source types is an
/// incompatibility that names both types, and nothing is emitted.
///
/// A product is left out where the shapes of the two types multiply as
/// matrices: the product of a matrix with a vector is the one case of
/// operands that differ in type and still lower.
pub proof fn operands_of_different_types_are_incompatible(
    s: State,
    span: Span,
    op: BinaryOperator,
    lhs: Typed,
    rhs: Typed,
)
    requires
        lhs.1 != rhs.1,
        op == BinaryOperator::Multiply ==> s.inner(lhs.1).is_ok() && s.inner(rhs.1).is_ok()
            && product_shape(s.inner(lhs.1).unwrap(), s.inner(rhs.1).unwrap()).is_none(),
    ensures
        binary_on(s, span, op, lhs, rhs) == (
            s,
            Err::<Typed, Halt>(
                failed(
                    Info::IncompatibleBinary { operator: op, lhs: lhs.1, rhs: Some(rhs.1) },
                    span,
                ),
            ),
        ),
        component_wise(s, span, op, lhs, rhs) == binary_on(s, span, op, lhs, rhs),
{
}

/// A type inserted without a name stands at its handle afterwards,
/// whatever the module held before, so long as the module has a handle
/// left. This holds of every shape but a struct, whose members make two
/// equal shapes more than one value.
pub proof fn inserted_type_stands_at_its_handle(s: State, inner: TypeInner, span: Span)
    requires
        !(inner is Struct),
        s.types.len() < u32::MAX,
    ensures
        ({
            let (after, handle) = s.intern(inner, span);
            &&& handle matches Ok(found) && found.0 < after.types.len()
                && after.types[found.0 as int] == Type::anonymous(inner) && after.inner(found)
                == Ok::<TypeInner, Halt>(inner)
        }),
{
    type_position_finds(s.types, Type::anonymous(inner), 0);
}

/// Emitting the lanes of a shuffle mask adds to the code and changes
/// nothing else.
pub proof fn mask_lanes_only_emit(s: State, mask: NativeValue, pattern: Seq<usize>, i: u32, lanes: u32)
    ensures
        mask_lanes(s, mask, pattern, i, lanes).0 == (State {
            code: mask_lanes(s, mask, pattern, i, lanes).0.code,
            ..s
        }),
    decreases lanes - i,
{
    if i < lanes && i < pattern.len() {
        let (s1, lane) = s.emit(Inst::ConstU64(pattern[i as int] as u64));
        let (s2, at) = s1.emit(Inst::ConstU64(i as u64));
        let (s3, next) = s2.emit(Inst::InsertElement { vector: mask, element: lane, index: at });
        mask_lanes_only_emit(s3, next, pattern, (i + 1) as u32, lanes);
    }
}

/// Where one of the lanes that a swizzle of a vector selects lies beyond
/// the vector's size, the swizzle fails for want of such a component, and
/// nothing is emitted.
pub proof fn swizzle_beyond_the_vector_fails(
    s: State,
    span: Span,
    size: VectorSize,
    vector: NativeValue,
    ty: TypeHandle,
    pattern: Seq<usize>,
    lane: int,
)
    requires
        pattern.len() == 4,
        0 <= lane < size.count(),
        s.inner(ty) matches Ok(TypeInner::Vector { size: in_size, .. }) && pattern[lane]
            > in_size.count(),
    ensures
        swizzle(s, span, size, vector, ty, pattern).0 == s,
        swizzle(s, span, size, vector, ty, pattern).1 matches Err(Halt::Error(error))
            && error.info matches Info::NoSuchComponent(of, beyond) && of == ty && error.span
            == span,
{
    let in_size = s.inner(ty)->Ok_0->Vector_size;
    beyond_is_found(pattern, size.count() as int, in_size.count() as int, 0, lane);
}

/// Where a lane from `from` on lies beyond the limit, `first_beyond`
/// finds one.
proof fn beyond_is_found(pattern: Seq<usize>, take: int, limit: int, from: int, lane: int)
    requires
        0 <= from <= lane < take <= pattern.len(),
        pattern[lane] > limit,
    ensures
        first_beyond(pattern, take, limit, from).is_some(),
    decreases take - from,
{
    if pattern[from] <= limit {
        beyond_is_found(pattern, take, limit, from + 1, lane);
    }
}

/// Where no lane from `from` on lies beyond the limit, `first_beyond`
/// finds none.
proof fn none_beyond(pattern: Seq<usize>, take: int, limit: int, from: int)
    requires
        0 <= from,
        forall|lane: int| from <= lane < take && lane < pattern.len() ==> pattern[lane] <= limit,
    ensures
        first_beyond(pattern, take, limit, from).is_none(),
    decreases take - from,
{
    if from < take && from < pattern.len() {
        none_beyond(pattern, take, limit, from + 1);
    }
}

/// Where every lane that a swizzle of a vector selects lies within the
/// vector's size, and the vector's scalar has a native type, the swizzle
/// succeeds, and its result has the vector type of the requested size
/// and the same scalar. A module at fault is left out: one that has no
/// handle left for the type of the result.
pub proof fn swizzle_within_the_vector_succeeds(
    s: State,
    span: Span,
    size: VectorSize,
    vector: NativeValue,
    ty: TypeHandle,
    pattern: Seq<usize>,
)
    requires
        pattern.len() == 4,
        s.inner(ty) matches Ok(TypeInner::Vector { size: in_size, scalar }) && scalar_type(
            span,
            scalar,
        ).is_ok() && (forall|lane: int|
            0 <= lane < size.count() && lane < pattern.len() ==> pattern[lane]
                <= in_size.count()),
        !(swizzle(s, span, size, vector, ty, pattern).1 matches Err(Halt::Fault(_))),
    ensures
        swizzle(s, span, size, vector, ty, pattern).1 matches Ok((_, result)) && swizzle(
            s,
            span,
            size,
            vector,
            ty,
            pattern,
        ).0.inner(result) == Ok::<TypeInner, Halt>(
            TypeInner::Vector { size, scalar: s.inner(ty)->Ok_0->Vector_scalar },
        ),
{
    let in_size = s.inner(ty)->Ok_0->Vector_size;
    let scalar = s.inner(ty)->Ok_0->Vector_scalar;
    none_beyond(pattern, size.count() as int, in_size.count() as int, 0);
    let (s1, undef) = s.emit(
        Inst::Undef(
            NativeType::Vector { element: Box::new(NativeType::Int(64)), len: size.count() },
        ),
    );
    let (s2, mask) = mask_lanes(s1, undef, pattern, 0, size.count());
    mask_lanes_only_emit(s1, undef, pattern, 0, size.count());
    let (s3, lowered) = lower_cached_type(s2, span, ty);
    let (s4, second) = s3.emit(Inst::Undef(lowered.unwrap()));
    let (s5, shuffled) = s4.emit(Inst::ShuffleVector { first: vector, second, mask });
    inserted_type_stands_at_its_handle(s5, TypeInner::Vector { size, scalar }, span);
}

/// The shapes of matrix products: a matrix of r rows and k columns times a
/// matrix of k rows and c columns is a matrix of r rows and c columns;
/// times a vector of k components it is a vector of r components; and a
/// vector of k components times a matrix of k rows and c columns is a
/// vector of c components. Operands whose inner dimensions differ do not
/// multiply as matrices.
pub proof fn product_shapes(r: VectorSize, k: VectorSize, c: VectorSize, other: VectorSize, scalar: Scalar)
    ensures
        product_shape(
            TypeInner::Matrix { rows: r, columns: k, scalar },
            TypeInner::Matrix { rows: k, columns: c, scalar },
        ) matches Some((_, _, _, _, shape)) && shape == (TypeInner::Matrix {
            rows: r,
            columns: c,
            scalar,
        }),
        product_shape(
            TypeInner::Matrix { rows: r, columns: k, scalar },
            TypeInner::Vector { size: k, scalar },
        ) matches Some((_, _, _, _, shape)) && shape == (TypeInner::Vector { size: r, scalar }),
        product_shape(
            TypeInner::Vector { size: k, scalar },
            TypeInner::Matrix { rows: k, columns: c, scalar },
        ) matches Some((_, _, _, _, shape)) && shape == (TypeInner::Vector { size: c, scalar }),
        other != k ==> product_shape(
            TypeInner::Matrix { rows: r, columns: k, scalar },
            TypeInner::Matrix { rows: other, columns: c, scalar },
        ).is_none() && product_shape(
            TypeInner::Matrix { rows: r, columns: k, scalar },
            TypeInner::Vector { size: other, scalar },
        ).is_none() && product_shape(
            TypeInner::Vector { size: k, scalar },
            TypeInner::Matrix { rows: other, columns: c, scalar },
        ).is_none(),
{
}

/// Where the shapes of two operands multiply as matrices, and their
/// scalar has a native type, their product lowers to a value whose type
/// has the shape of the product. A module at fault is left out: one that
/// has no handle left for the type of the result.
pub proof fn product_has_the_shape_of_the_product(s: State, span: Span, lhs: Typed, rhs: Typed)
    requires
        s.inner(lhs.1).is_ok(),
        s.inner(rhs.1).is_ok(),
        product_shape(s.inner(lhs.1).unwrap(), s.inner(rhs.1).unwrap()) matches Some(
            (scalar, _, _, _, _),
        ) && scalar_type(span, scalar).is_ok(),
        !(multiply(s, span, lhs, rhs).1 matches Err(Halt::Fault(_))),
    ensures
        multiply(s, span, lhs, rhs).1 matches Ok((_, result)) && multiply(
            s,
            span,
            lhs,
            rhs,
        ).0.inner(result) == Ok::<TypeInner, Halt>(
            product_shape(s.inner(lhs.1).unwrap(), s.inner(rhs.1).unwrap()).unwrap().4,
        ),
{
    let (scalar, rows, inner, columns, shape) = product_shape(
        s.inner(lhs.1).unwrap(),
        s.inner(rhs.1).unwrap(),
    ).unwrap();
    inserted_type_stands_at_its_handle(s, shape, product_span(s, span, lhs, rhs));
}

/// Where the shapes of the operands of a product do not multiply as
/// matrices, the product is lowered component by component.
pub proof fn other_products_are_component_wise(s: State, span: Span, lhs: Typed, rhs: Typed)
    requires
        s.inner(lhs.1).is_ok(),
        s.inner(rhs.1).is_ok(),
        product_shape(s.inner(lhs.1).unwrap(), s.inner(rhs.1).unwrap()).is_none(),
    ensures
        multiply(s, span, lhs, rhs) == component_wise(
            s,
            span,
            BinaryOperator::Multiply,
            lhs,
            rhs,
        ),
{
}

/// A return with a value from a function that declares no result is an
/// error that names the type of the value; a return without a value from
/// a function that declares a result is an error that names the declared
/// type. Neither emits a return.
pub proof fn return_must_match_the_declared_result(
    s: State,
    frame: Frame,
    span: Span,
    declared: TypeHandle,
    value: ExprHandle,
)
    ensures
        return_value(s, frame, Some(declared), span, None) == (
            s,
            Err::<(), Halt>(
                failed(
                    Info::IncorrectReturnType { expected: Some(declared), found: None },
                    span,
                ),
            ),
        ),
        eval_cached(s, Some(frame), value).1 matches Ok((_, found)) ==> return_value(
            s,
            frame,
            None,
            span,
            Some(value),
        ) == (
            eval_cached(s, Some(frame), value).0,
            Err::<(), Halt>(
                failed(Info::IncorrectReturnType { expected: None, found: Some(found) }, span),
            ),
        ),
        eval_cached(s, Some(frame), value).1 matches Ok((_, found)) ==> found != declared
            ==> return_value(s, frame, Some(declared), span, Some(value)) == (
            eval_cached(s, Some(frame), value).0,
            Err::<(), Halt>(
                failed(
                    Info::IncorrectReturnType { expected: Some(declared), found: Some(found) },
                    span_of(eval_cached(s, Some(frame), value).0, Some(frame), value),
                ),
            ),
        ),
{
}

/// A return that matches the declared result succeeds: without a value
/// it emits a return of nothing, with a value of the declared type a
/// return of the lowered value.
pub proof fn matching_return_is_emitted(
    s: State,
    frame: Frame,
    span: Span,
    declared: TypeHandle,
    value: ExprHandle,
)
    ensures
        return_value(s, frame, None, span, None) == (
            s.emit(Inst::ReturnVoid).0,
            Ok::<(), Halt>(()),
        ),
        eval_cached(s, Some(frame), value).1 matches Ok((native, found)) ==> found == declared
            ==> return_value(s, frame, Some(declared), span, Some(value)) == (
            eval_cached(s, Some(frame), value).0.emit(Inst::Return { value: native }).0,
            Ok::<(), Halt>(()),
        ),
{
}

/// Whether each entry of `table` is larger than the one before it.
pub open spec fn increasing(table: Seq<u32>) -> bool {
    forall|a: int, b: int| 0 <= a < b < table.len() ==> table[a] < table[b]
}

/// The table of native member indices that lowering the members of a
/// struct yields has one entry for each member, each larger than the one
/// before it, and each the index of a native member: no two members
/// share a native member, and padding is never a member's.
pub proof fn member_table_is_increasing(
    s: State,
    span: Span,
    ty: TypeHandle,
    slots: Seq<(TypeHandle, u32)>,
    i: int,
    end: u32,
    table: Seq<u32>,
    next: u32,
)
    requires
        0 <= i <= slots.len(),
        increasing(table),
        forall|a: int| 0 <= a < table.len() ==> table[a] < next,
    ensures
        lower_members(s, span, ty, slots, i, end, table, next).1 matches Ok((list, finished)) ==> {
            &&& finished.len() == table.len() + slots.len() - i
            &&& finished.subrange(0, table.len() as int) == table
            &&& increasing(finished)
            &&& slots.len() - i <= list.seq().len()
            &&& forall|a: int| 0 <= a < finished.len() ==> finished[a] < next + list.seq().len()
        },
    decreases slots.len() - i,
{
    let lowered = lower_members(s, span, ty, slots, i, end, table, next).1;
    if i < slots.len() && lowered.is_ok() {
        let (member, offset) = slots[i];
        let index = if end < offset {
            next + 1
        } else {
            next as int
        };
        let (s1, native) = lower_cached_type(s, span, member);
        let size = crate::codegen::target::abi_size(s1.layouts, native.unwrap()).unwrap();
        let grown = table.push(index as u32);
        member_table_is_increasing(
            s1,
            span,
            ty,
            slots,
            i + 1,
            (crate::codegen::types::placed_at(end, offset) + size) as u32,
            grown,
            (index + 1) as u32,
        );
        let (list, finished) = lowered.unwrap();
        reveal_with_fuel(Members::seq, 3);
        let rest = lower_members(
            s1,
            span,
            ty,
            slots,
            i + 1,
            (crate::codegen::types::placed_at(end, offset) + size) as u32,
            grown,
            (index + 1) as u32,
        ).1.unwrap();
    }
    table_is_kept(s, span, ty, slots, i, end, table, next);
}

/// The table that lowering the members of a struct yields begins with the
/// table of the members before them.
pub proof fn table_is_kept(
    s: State,
    span: Span,
    ty: TypeHandle,
    slots: Seq<(TypeHandle, u32)>,
    i: int,
    end: u32,
    table: Seq<u32>,
    next: u32,
)
    requires
        0 <= i,
    ensures
        lower_members(s, span, ty, slots, i, end, table, next).1 matches Ok((_, finished))
            ==> table.len() <= finished.len() && finished.subrange(0, table.len() as int)
            == table,
    decreases slots.len() - i,
{
    let lowered = lower_members(s, span, ty, slots, i, end, table, next).1;
    if i < slots.len() && lowered.is_ok() {
        let (member, offset) = slots[i];
        let index = if end < offset {
            next + 1
        } else {
            next as int
        };
        let (s1, native) = lower_cached_type(s, span, member);
        let size = crate::codegen::target::abi_size(s1.layouts, native.unwrap()).unwrap();
        let grown = table.push(index as u32);
        let start = crate::codegen::types::placed_at(end, offset);
        table_is_kept(s1, span, ty, slots, i + 1, (start + size) as u32, grown, (index + 1) as u32);
        let finished = lowered.unwrap().1;
        assert(finished.subrange(0, table.len() as int) =~= finished.subrange(
            0,
            grown.len() as int,
        ).subrange(0, table.len() as int));
    }
}

/// Where the next member of a struct begins beyond the end of the members
/// before it, exactly one padding member comes before it: an integer of
/// the missing bytes, eight bits each. The member itself follows with its
/// lowered type, and the table names the member's own place, not the
/// padding's. A member that begins at the end, or before it, gets no
/// padding.
pub proof fn member_follows_its_padding(
    s: State,
    span: Span,
    ty: TypeHandle,
    slots: Seq<(TypeHandle, u32)>,
    i: int,
    end: u32,
    table: Seq<u32>,
    next: u32,
)
    requires
        0 <= i < slots.len(),
        lower_members(s, span, ty, slots, i, end, table, next).1.is_ok(),
    ensures
        ({
            let (list, finished) = lower_members(s, span, ty, slots, i, end, table, next).1.unwrap();
            let (member, offset) = slots[i];
            let native = lower_cached_type(s, span, member).1;
            if end < offset {
                &&& list.seq().len() >= 2
                &&& list.seq()[0] == NativeType::Int(((offset - end) * 8) as u32)
                &&& native == Ok::<NativeType, Halt>(list.seq()[1])
                &&& finished[table.len() as int] == next + 1
            } else {
                &&& list.seq().len() >= 1
                &&& native == Ok::<NativeType, Halt>(list.seq()[0])
                &&& finished[table.len() as int] == next
            }
        }),
{
    reveal_with_fuel(Members::seq, 3);
    let (member, offset) = slots[i];
    let index = if end < offset {
        next + 1
    } else {
        next as int
    };
    let (s1, native) = lower_cached_type(s, span, member);
    let size = crate::codegen::target::abi_size(s1.layouts, native.unwrap()).unwrap();
    let grown = table.push(index as u32);
    table_is_kept(
        s1,
        span,
        ty,
        slots,
        i + 1,
        (crate::codegen::types::placed_at(end, offset) + size) as u32,
        grown,
        (index + 1) as u32,
    );
    let rest = lower_members(
        s1,
        span,
        ty,
        slots,
        i + 1,
        (crate::codegen::types::placed_at(end, offset) + size) as u32,
        grown,
        (index + 1) as u32,
    ).1.unwrap();
    assert(rest.1.subrange(0, grown.len() as int)[table.len() as int] == grown[table.len() as int]);
}

/// A struct that has been lowered has a table with one native member
/// index for each of its members, each larger than the one before it and
/// each within the native struct. A composition puts member `k` where the
/// table says, and an access of member `k` reads the same place.
pub proof fn lowered_struct_has_a_table(s: State, span: Span, ty: TypeHandle, k: u32)
    requires
        s.inner(ty) matches Ok(TypeInner::Struct { members, .. }) && k < members@.len(),
        lower_type(s, span, ty).1.is_ok(),
    ensures
        ({
            let (after, native) = lower_type(s, span, ty);
            &&& after.struct_maps.contains_key(ty.0)
            &&& after.struct_maps[ty.0].len() == s.inner(ty)->Ok_0->Struct_members@.len()
            &&& increasing(after.struct_maps[ty.0])
            &&& native matches Ok(NativeType::Struct { members: list })
                && after.struct_maps[ty.0][k as int] < list.seq().len()
            &&& remapped(after, ty, Index::Constant(k)) == Ok::<Index, Halt>(
                Index::Constant(after.struct_maps[ty.0][k as int]),
            )
        }),
{
    let members = s.inner(ty)->Ok_0->Struct_members;
    member_table_is_increasing(s, span, ty, member_slots(members@), 0, 0, Seq::empty(), 0);
    lower_type_extends(s, span, ty);
}

/// A member of a struct behind a pointer is addressed at the native
/// member that the struct's table names for it, by a constant of 32 bits
/// after the leading zero, and the address is a pointer to the type that
/// the struct declares for the member, in the address space of the pointer
/// that was indexed. Padding is never addressed as a member.
pub proof fn member_behind_a_pointer_is_addressed_where_it_lies(
    s: State,
    loc: Option<Frame>,
    bound: ExprHandle,
    span: Span,
    base: NativeValue,
    inner: TypeHandle,
    space: AddressSpace,
    k: u32,
)
    requires
        s.inner(inner) matches Ok(TypeInner::Struct { members, .. }) && k < members@.len(),
        s.type_cache.contains_key(inner.0),
        s.struct_maps.contains_key(inner.0),
        k < s.struct_maps[inner.0].len(),
    ensures
        ({
            let slot = s.struct_maps[inner.0][k as int];
            let member = s.inner(inner)->Ok_0->Struct_members@[k as int].ty;
            let (s1, at) = s.emit(Inst::ConstU32(slot));
            let (s2, zero) = s1.emit(Inst::ConstU64(0));
            let (s3, address) = s2.emit(
                Inst::ElementPointer {
                    pointee: s.type_cache[inner.0],
                    base,
                    zero,
                    index: at,
                },
            );
            let (s4, result) = s3.intern(
                TypeInner::Pointer { base: member, space },
                s3.type_span(inner),
            );
            &&& remapped(s, inner, Index::Constant(k)) == Ok::<Index, Halt>(Index::Constant(slot))
            &&& access_pointer(
                s,
                loc,
                bound,
                span,
                base,
                inner,
                space,
                Index::Constant(k),
                Index::Constant(slot),
            ) == (s4, with_type(address, result))
        }),
{
}


/// A member of a struct value is read from the native member that a
/// composition of the struct writes it to, the one that the struct's table
/// names for it, and has the type that the struct declares for it.
pub proof fn member_is_read_where_it_is_written(
    s: State,
    loc: Option<Frame>,
    bound: ExprHandle,
    span: Span,
    base: NativeValue,
    component: ExprHandle,
    ty: TypeHandle,
    k: u32,
)
    requires
        s.inner(ty) matches Ok(TypeInner::Struct { members, .. }) && k < members@.len(),
        s.struct_maps.contains_key(ty.0),
        k < s.struct_maps[ty.0].len(),
    ensures
        ({
            let slot = s.struct_maps[ty.0][k as int];
            let member = s.inner(ty)->Ok_0->Struct_members@[k as int].ty;
            let (s1, at) = s.emit(Inst::ConstU64(slot as u64));
            let (s2, read) = s1.emit(Inst::ExtractValue { aggregate: base, index: slot });
            &&& remapped(s, ty, Index::Constant(k)) == Ok::<Index, Halt>(Index::Constant(slot))
            &&& access_value(
                s,
                loc,
                bound,
                span,
                base,
                ty,
                Index::Constant(k),
                Index::Constant(slot),
            ) == (s2, Ok::<Typed, Halt>((read, member)))
        }),
        ({
            let table = s.struct_maps[ty.0];
            let components = Seq::new((k + 1) as nat, |i: int| component);
            let (s1, lowered) = operand(s, loc, bound, component);
            lowered matches Ok((written, _)) ==> compose_items(
                s,
                loc,
                bound,
                span,
                Composite::Struct,
                components,
                table,
                k as int,
                base,
            ) == (
                s1.emit(
                    Inst::InsertValue {
                        aggregate: base,
                        element: written,
                        index: table[k as int],
                    },
                ).0,
                Ok::<NativeValue, Halt>(NativeValue(s1.code.len() as usize)),
            )
        }),
{
    let table = s.struct_maps[ty.0];
    let components = Seq::new((k + 1) as nat, |i: int| component);
    let (s1, lowered) = operand(s, loc, bound, component);
    if let Ok((written, _)) = lowered {
        let (s2, next) = s1.emit(
            Inst::InsertValue { aggregate: base, element: written, index: table[k as int] },
        );
        assert(compose_items(
            s2,
            loc,
            bound,
            span,
            Composite::Struct,
            components,
            table,
            k + 1,
            next,
        ) == (s2, Ok::<NativeValue, Halt>(next)));
    }
}

/// An access to member `k` of a lowered struct through a pointer lowers
/// to the address of the native member that the struct's table names for
/// `k`: the pointer is lowered, and the rest is as
/// [`member_behind_a_pointer_is_addressed_where_it_lies`] says.
pub proof fn access_through_a_pointer_passes_over_padding(
    s: State,
    loc: Option<Frame>,
    bound: ExprHandle,
    span: Span,
    base: ExprHandle,
    k: u32,
)
    requires
        operand(s, loc, bound, base).1 matches Ok((_, ty)) && operand(s, loc, bound, base).0.inner(
            ty,
        ) matches Ok(TypeInner::Pointer { base: inner, .. }) && operand(
            s,
            loc,
            bound,
            base,
        ).0.inner(inner) matches Ok(TypeInner::Struct { members, .. }) && k < members@.len()
            && operand(s, loc, bound, base).0.struct_maps.contains_key(inner.0) && k < operand(
            s,
            loc,
            bound,
            base,
        ).0.struct_maps[inner.0].len(),
    ensures
        ({
            let (s1, lowered) = operand(s, loc, bound, base);
            let (value, ty) = lowered->Ok_0;
            let inner = s1.inner(ty)->Ok_0->Pointer_base;
            let space = s1.inner(ty)->Ok_0->Pointer_space;
            access(s, loc, bound, span, base, Index::Constant(k)) == access_pointer(
                s1,
                loc,
                bound,
                span,
                value,
                inner,
                space,
                Index::Constant(k),
                Index::Constant(s1.struct_maps[inner.0][k as int]),
            )
        }),
{
}

} // verus!
