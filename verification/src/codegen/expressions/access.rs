//! Lowering of accesses: an item of a vector, a matrix, an array or a
//! struct, by a value or through a pointer.

use crate::codegen::error::{fail, failed, Fault, Halt, Info};
use crate::codegen::expressions::index::Index;
use crate::codegen::expressions::location::{
    exprs_at, frame_of, get_exprs, rank, Frame, FunctionState,
};
use crate::codegen::expressions::operand;
use crate::codegen::expressions::swizzle::shuffle;
use crate::codegen::native::{Inst, NativeValue};
use crate::codegen::types::{flat_len, item, lower_cached_type, pointee};
use crate::codegen::{with_type, Generator, State, Typed};
use crate::ir::{
    AddressSpace, ExprHandle, Expression, Literal, Scalar, Span, TypeHandle, TypeInner,
    VectorSize,
};
use vstd::prelude::*;

verus! {

broadcast use vstd::std_specs::hash::group_hash_axioms;

/// The index into the native form of the type `ty`, which is the type of
/// the value that is indexed, or of what the pointer that is indexed
/// points to. Where the type is a struct and the index is known up front,
/// this is the native index that the struct's table gives for the member,
/// so that padding is passed over; a struct without a table, or without
/// such a member, is a fault. Any other index stays as it is.
pub open spec fn remapped(s: State, ty: TypeHandle, index: Index) -> Result<Index, Halt> {
    match index {
        Index::Constant(member) => match is_struct(s, ty) {
            Err(halt) => Err(halt),
            Ok(false) => Ok(index),
            Ok(true) => if !s.struct_maps.contains_key(ty.0) {
                Err(Halt::Fault(Fault::UnmappedStruct))
            } else if member < s.struct_maps[ty.0].len() {
                Ok(Index::Constant(s.struct_maps[ty.0][member as int]))
            } else {
                Err(Halt::Fault(Fault::IndexOutOfRange))
            },
        },
        Index::Dynamic(_) => Ok(index),
    }
}

/// Sees to it that the type `ty` has its table of member indices, where
/// it is a struct of which `index` selects a member known up front: a
/// struct without a table is lowered.
pub open spec fn with_table(s: State, span: Span, ty: TypeHandle, index: Index) -> (State, Result<
    (),
    Halt,
>) {
    match index {
        Index::Dynamic(_) => (s, Ok(())),
        Index::Constant(_) => match is_struct(s, ty) {
            Err(halt) => (s, Err(halt)),
            Ok(false) => (s, Ok(())),
            Ok(true) => if s.struct_maps.contains_key(ty.0) {
                (s, Ok(()))
            } else {
                let (s1, lowered) = lower_cached_type(s, span, ty);
                match lowered {
                    Err(halt) => (s1, Err(halt)),
                    Ok(_) => (s1, Ok(())),
                }
            },
        },
    }
}

/// The index, where it is known up front.
pub open spec fn constant_of(index: Index) -> Option<usize> {
    match index {
        Index::Constant(at) => Some(at as usize),
        Index::Dynamic(_) => None,
    }
}

/// The index, where lowering can tell its value: a number known up front,
/// an unsigned literal, or a zero value.
pub open spec fn known_index(s: State, loc: Option<Frame>, index: Index) -> Option<u32> {
    match index {
        Index::Constant(at) => Some(at),
        Index::Dynamic(expr) => if expr.0 < exprs_at(s, loc).len() {
            match exprs_at(s, loc)[expr.0 as int] {
                Expression::Literal(Literal::U32(value)) => Some(value),
                Expression::ZeroValue(_) => Some(0),
                _ => None,
            }
        } else {
            None
        },
    }
}

/// The index as a native value: the lowered expression, or a constant of
/// 64 bits, or of 32 bits where `narrow` asks for it.
pub open spec fn index_value(s: State, loc: Option<Frame>, bound: ExprHandle, index: Index, narrow: bool) -> (
    State,
    Result<NativeValue, Halt>,
)
    decreases rank(loc), bound.0, 0nat, 1nat,
{
    match index {
        Index::Dynamic(expr) => {
            let (s1, lowered) = operand(s, loc, bound, expr);
            match lowered {
                Err(halt) => (s1, Err(halt)),
                Ok((value, _)) => (s1, Ok(value)),
            }
        },
        Index::Constant(at) => {
            let (s1, value) = if narrow {
                s.emit(Inst::ConstU32(at))
            } else {
                s.emit(Inst::ConstU64(at as u64))
            };
            (s1, Ok(value))
        },
    }
}

/// Whether the type at `ty` is a struct.
pub open spec fn is_struct(s: State, ty: TypeHandle) -> Result<bool, Halt> {
    match s.inner(ty) {
        Err(halt) => Err(halt),
        Ok(TypeInner::Struct { .. }) => Ok(true),
        Ok(_) => Ok(false),
    }
}

/// Lowers an access through the pointer `base` to a value of the type
/// `inner` in the address space `space`: the address of the item, as a
/// pointer to the item's type in the same address space. The item is
/// selected by `native`, the index into the native form, and typed by
/// `index`, the index into the source form. A member of a struct is
/// selected by a constant of 32 bits.
pub open spec fn access_pointer(
    s: State,
    loc: Option<Frame>,
    bound: ExprHandle,
    span: Span,
    base: NativeValue,
    inner: TypeHandle,
    space: AddressSpace,
    index: Index,
    native: Index,
) -> (State, Result<Typed, Halt>)
    decreases rank(loc), bound.0, 0nat, 2nat,
{
    let narrow = match native {
        Index::Constant(_) => is_struct(s, inner),
        Index::Dynamic(_) => Ok(false),
    };
    match narrow {
        Err(halt) => (s, Err(halt)),
        Ok(narrow) => {
            let (s1, at) = index_value(s, loc, bound, native, narrow);
            match at {
                Err(halt) => (s1, Err(halt)),
                Ok(at) => {
                    let (s2, lowered) = lower_cached_type(s1, span, inner);
                    match lowered {
                        Err(halt) => (s2, Err(halt)),
                        Ok(native) => {
                            let (s3, found) = item(s2, span, inner, constant_of(index));
                            match found {
                                Err(halt) => (s3, Err(halt)),
                                Ok(item_ty) => {
                                    let (s4, zero) = s3.emit(Inst::ConstU64(0));
                                    let (s5, address) = s4.emit(
                                        Inst::ElementPointer {
                                            pointee: native,
                                            base,
                                            zero,
                                            index: at,
                                        },
                                    );
                                    let (s6, result) = s5.intern(
                                        TypeInner::Pointer { base: item_ty, space },
                                        s5.type_span(inner),
                                    );
                                    (s6, with_type(address, result))
                                },
                            }
                        },
                    }
                },
            }
        },
    }
}

/// The four lanes from `first` on.
pub open spec fn lanes_from(first: usize) -> Seq<usize> {
    seq![first, (first + 1) as usize, (first + 2) as usize, (first + 3) as usize]
}

/// Lowers an access to an item of the value `base` of the type `ty`.
/// The item is selected by `native`, the index into the native form, and
/// typed by `index`, the index into the source form.
///
/// An element of a vector is extracted at the index. A column of a matrix
/// is a selection of lanes from the flat vector of the matrix: as many as
/// the matrix has rows, from the column's first lane on. Any other item is
/// extracted at a constant index. But for a vector, lowering must be able
/// to tell the index's value.
pub open spec fn access_value(
    s: State,
    loc: Option<Frame>,
    bound: ExprHandle,
    span: Span,
    base: NativeValue,
    ty: TypeHandle,
    index: Index,
    native: Index,
) -> (State, Result<Typed, Halt>)
    decreases rank(loc), bound.0, 0nat, 2nat,
{
    let (s1, at) = index_value(s, loc, bound, native, false);
    match at {
        Err(halt) => (s1, Err(halt)),
        Ok(at) => {
            let known = known_index(s1, loc, native);
            let (s2, found) = item(
                s1,
                span,
                ty,
                match known_index(s1, loc, index) {
                    Some(k) => Some(k as usize),
                    None => None,
                },
            );
            match found {
                Err(halt) => (s2, Err(halt)),
                Ok(item_ty) => match s2.inner(ty) {
                    Err(halt) => (s2, Err(halt)),
                    Ok(TypeInner::Vector { .. }) => {
                        let (s3, value) = s2.emit(
                            Inst::ExtractElement { vector: base, index: at },
                        );
                        (s3, Ok((value, item_ty)))
                    },
                    Ok(TypeInner::Matrix { rows, columns, scalar }) => match known {
                        None => (s2, Err(failed(Info::NonConstantIndex, span))),
                        Some(k) => if k * rows.count() + 3 > usize::MAX {
                            (s2, Err(Halt::Fault(Fault::Arithmetic)))
                        } else {
                            let (s3, column) = shuffle(
                                s2,
                                span,
                                rows,
                                base,
                                ty,
                                scalar,
                                (rows.count() * columns.count()) as u32,
                                lanes_from((k * rows.count()) as usize),
                            );
                            match column {
                                Err(halt) => (s3, Err(halt)),
                                Ok((value, _)) => (s3, Ok((value, item_ty))),
                            }
                        },
                    },
                    Ok(_) => match known {
                        None => (s2, Err(failed(Info::NonConstantIndex, span))),
                        Some(k) => {
                            let (s3, value) = s2.emit(
                                Inst::ExtractValue { aggregate: base, index: k },
                            );
                            (s3, Ok((value, item_ty)))
                        },
                    },
                },
            }
        },
    }
}

/// Lowers the access to an item of the expression `base`, an operand of
/// the expression `bound`. Through a pointer the result is a pointer to
/// the item; of a value it is the item itself.
///
/// A member of a struct, of a value or behind a pointer, is selected at
/// its native index, which passes over padding, and has the type that the
/// struct declares for it. A struct behind a pointer that has no table
/// yet is lowered before the member is looked up.
pub open spec fn access(
    s: State,
    loc: Option<Frame>,
    bound: ExprHandle,
    span: Span,
    base: ExprHandle,
    index: Index,
) -> (State, Result<Typed, Halt>)
    decreases rank(loc), bound.0, 0nat, 3nat,
{
    let (s1, lowered) = operand(s, loc, bound, base);
    match lowered {
        Err(halt) => (s1, Err(halt)),
        Ok((value, ty)) => {
            let (s2, target) = pointee(s1, ty);
            match target {
                Err(halt) => (s2, Err(halt)),
                Ok(Some((inner, space))) => {
                    let (s3, ready) = with_table(s2, span, inner, index);
                    match ready {
                        Err(halt) => (s3, Err(halt)),
                        Ok(_) => match remapped(s3, inner, index) {
                            Err(halt) => (s3, Err(halt)),
                            Ok(native) => access_pointer(
                                s3,
                                loc,
                                bound,
                                span,
                                value,
                                inner,
                                space,
                                index,
                                native,
                            ),
                        },
                    }
                },
                Ok(None) => match remapped(s2, ty, index) {
                    Err(halt) => (s2, Err(halt)),
                    Ok(native) => access_value(s2, loc, bound, span, value, ty, index, native),
                },
            }
        },
    }
}

/// What an access of a value does with the value, by the value's type.
#[derive(Clone, Copy, Debug, PartialEq, Eq, Structural)]
enum Extraction {
    Element,
    Column(VectorSize, VectorSize, Scalar),
    Item,
}

impl Generator {
    fn remap(&self, ty: TypeHandle, index: Index) -> (native: Result<Index, Halt>)
        ensures
            native == remapped(self@, ty, index),
    {
        match index {
            Index::Constant(member) => {
                if !self.struct_at(ty)? {
                    return Ok(index);
                }
                match self.struct_maps.get(&ty.0) {
                    Some(table) => {
                        if (member as usize) < table.len() {
                            Ok(Index::Constant(table[member as usize]))
                        } else {
                            Err(Halt::Fault(Fault::IndexOutOfRange))
                        }
                    },
                    None => Err(Halt::Fault(Fault::UnmappedStruct)),
                }
            },
            Index::Dynamic(_) => Ok(index),
        }
    }

    fn ensure_table(&mut self, span: Span, ty: TypeHandle, index: Index) -> (ready: Result<(), Halt>)
        ensures
            final(self).module.src.functions == old(self).module.src.functions,
            (final(self)@, ready) == with_table(old(self)@, span, ty, index),
    {
        match index {
            Index::Dynamic(_) => Ok(()),
            Index::Constant(_) => {
                if !self.struct_at(ty)? {
                    return Ok(());
                }
                if self.struct_maps.contains_key(&ty.0) {
                    return Ok(());
                }
                self.eval_cached_type(span, ty)?;
                Ok(())
            },
        }
    }

    fn known(&self, location: Option<&FunctionState>, index: Index) -> (value: Option<u32>)
        ensures
            value == known_index(self@, frame_of(location), index),
    {
        match index {
            Index::Constant(at) => Some(at),
            Index::Dynamic(expr) => match get_exprs(self, location).try_get(expr.0) {
                Some(Expression::Literal(Literal::U32(value))) => Some(*value),
                Some(Expression::ZeroValue(_)) => Some(0),
                _ => None,
            },
        }
    }

    fn struct_at(&self, ty: TypeHandle) -> (found: Result<bool, Halt>)
        ensures
            found == is_struct(self@, ty),
    {
        match self.type_inner(ty)? {
            TypeInner::Struct { .. } => Ok(true),
            _ => Ok(false),
        }
    }

    fn extraction(&self, ty: TypeHandle) -> (kind: Result<Extraction, Halt>)
        ensures
            kind == match self@.inner(ty) {
                Err(halt) => Err::<Extraction, Halt>(halt),
                Ok(TypeInner::Vector { .. }) => Ok(Extraction::Element),
                Ok(TypeInner::Matrix { rows, columns, scalar }) => Ok(
                    Extraction::Column(rows, columns, scalar),
                ),
                Ok(_) => Ok(Extraction::Item),
            },
    {
        match self.type_inner(ty)? {
            TypeInner::Vector { .. } => Ok(Extraction::Element),
            TypeInner::Matrix { rows, columns, scalar } => Ok(
                Extraction::Column(*rows, *columns, *scalar),
            ),
            _ => Ok(Extraction::Item),
        }
    }

    fn build_index(
        &mut self,
        location: Option<&FunctionState>,
        bound: ExprHandle,
        index: Index,
        narrow: bool,
    ) -> (lowered: Result<NativeValue, Halt>)
        ensures
            final(self).module.src.functions == old(self).module.src.functions,
            (final(self)@, lowered) == index_value(
                old(self)@,
                frame_of(location),
                bound,
                index,
                narrow,
            ),
        decreases rank(frame_of(location)), bound.0, 0nat, 1nat,
    {
        match index {
            Index::Dynamic(expr) => {
                let (value, _) = self.eval_operand(location, bound, expr)?;
                Ok(value)
            },
            Index::Constant(at) => {
                if narrow {
                    Ok(self.emit(Inst::ConstU32(at)))
                } else {
                    Ok(self.emit(Inst::ConstU64(at as u64)))
                }
            },
        }
    }

    /// Lowers an access through the pointer `base` to a value of the type
    /// `inner` in the address space `space`.
    pub fn build_access_pointer(
        &mut self,
        location: Option<&FunctionState>,
        bound: ExprHandle,
        span: Span,
        base: NativeValue,
        inner: TypeHandle,
        space: AddressSpace,
        index: Index,
        native: Index,
    ) -> (lowered: Result<Typed, Halt>)
        ensures
            final(self).module.src.functions == old(self).module.src.functions,
            (final(self)@, lowered) == access_pointer(
                old(self)@,
                frame_of(location),
                bound,
                span,
                base,
                inner,
                space,
                index,
                native,
            ),
        decreases rank(frame_of(location)), bound.0, 0nat, 2nat,
    {
        let narrow: bool = match native {
            Index::Constant(_) => self.struct_at(inner)?,
            Index::Dynamic(_) => false,
        };
        let at = self.build_index(location, bound, native, narrow)?;
        let native = self.eval_cached_type(span, inner)?;
        let constant: Option<usize> = match index {
            Index::Constant(at) => Some(at as usize),
            Index::Dynamic(_) => None,
        };
        let item_ty = self.item_type(span, inner, constant)?;
        let zero = self.emit(Inst::ConstU64(0));
        let address = self.emit(Inst::ElementPointer { pointee: native, base, zero, index: at });
        let inner_span = self.module.src.types.get_span(inner);
        let result = self.insert_type(TypeInner::Pointer { base: item_ty, space }, inner_span)?;
        Ok((address, result))
    }

    /// Lowers an access to an item of the value `base` of the type `ty`.
    pub fn build_access_value(
        &mut self,
        location: Option<&FunctionState>,
        bound: ExprHandle,
        span: Span,
        base: NativeValue,
        ty: TypeHandle,
        index: Index,
        native: Index,
    ) -> (lowered: Result<Typed, Halt>)
        ensures
            final(self).module.src.functions == old(self).module.src.functions,
            (final(self)@, lowered) == access_value(
                old(self)@,
                frame_of(location),
                bound,
                span,
                base,
                ty,
                index,
                native,
            ),
        decreases rank(frame_of(location)), bound.0, 0nat, 2nat,
    {
        let at = self.build_index(location, bound, native, false)?;
        let known: Option<u32> = self.known(location, native);
        let position: Option<usize> = match self.known(location, index) {
            Some(k) => Some(k as usize),
            None => None,
        };
        let item_ty = self.item_type(span, ty, position)?;
        match self.extraction(ty)? {
            Extraction::Element => {
                let value = self.emit(Inst::ExtractElement { vector: base, index: at });
                Ok((value, item_ty))
            },
            Extraction::Column(rows, columns, scalar) => match known {
                None => Err(fail(Info::NonConstantIndex, span)),
                Some(k) => {
                    let lanes: usize = rows.lanes() as usize;
                    if k as usize > (usize::MAX - 3) / lanes {
                        assert(k * lanes + 3 > usize::MAX) by (nonlinear_arith)
                            requires
                                k > (usize::MAX - 3) / (lanes as int),
                                lanes > 0,
                        ;
                        return Err(Halt::Fault(Fault::Arithmetic));
                    }
                    assert(k * lanes + 3 <= usize::MAX) by (nonlinear_arith)
                        requires
                            k <= (usize::MAX - 3) / (lanes as int),
                            lanes > 0,
                    ;
                    let first: usize = k as usize * lanes;
                    let pattern: [usize; 4] = [first, first + 1, first + 2, first + 3];
                    let limit: u32 = flat_len(rows, columns);
                    let (value, _) = self.build_shuffle(
                        span,
                        rows,
                        base,
                        ty,
                        scalar,
                        limit,
                        pattern,
                    )?;
                    Ok((value, item_ty))
                },
            },
            Extraction::Item => match known {
                None => Err(fail(Info::NonConstantIndex, span)),
                Some(k) => {
                    let value = self.emit(Inst::ExtractValue { aggregate: base, index: k });
                    Ok((value, item_ty))
                },
            },
        }
    }

    /// Lowers the access to an item of the expression `base`, an operand
    /// of the expression `bound`.
    pub fn build_access(
        &mut self,
        location: Option<&FunctionState>,
        bound: ExprHandle,
        span: Span,
        base: ExprHandle,
        index: Index,
    ) -> (lowered: Result<Typed, Halt>)
        ensures
            final(self).module.src.functions == old(self).module.src.functions,
            (final(self)@, lowered) == access(
                old(self)@,
                frame_of(location),
                bound,
                span,
                base,
                index,
            ),
        decreases rank(frame_of(location)), bound.0, 0nat, 3nat,
    {
        let (value, ty) = self.eval_operand(location, bound, base)?;
        match self.get_pointee(ty)? {
            Some((inner, space)) => {
                self.ensure_table(span, inner, index)?;
                let native = self.remap(inner, index)?;
                self.build_access_pointer(
                    location,
                    bound,
                    span,
                    value,
                    inner,
                    space,
                    index,
                    native,
                )
            },
            None => {
                let native = self.remap(ty, index)?;
                self.build_access_value(location, bound, span, value, ty, index, native)
            },
        }
    }
}

} // verus!
