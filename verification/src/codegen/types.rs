//! Lowering of source types to native types.
//!
//! A type is lowered in one of two ways. As a value, a matrix is one flat
//! vector of all its elements; as storage, behind a pointer, it is an array
//! of its columns. Every other type is lowered the same both ways.

use crate::codegen::error::{fail, failed, Fault, Halt, Info};
use crate::codegen::native::{Members, NativeType};
use crate::codegen::target::abi_size;
use crate::codegen::{Generator, State};
use crate::ir::{
    AddressSpace, ArraySize, Scalar, ScalarKind, Span, StructMember, TypeHandle, TypeInner,
    VectorSize,
};
use vstd::prelude::*;

verus! {

broadcast use vstd::std_specs::hash::group_hash_axioms;

/// The native type of a scalar: one bit for a boolean, the float of the
/// scalar's width, the integer of eight bits for each byte of width.
pub open spec fn scalar_type(span: Span, scalar: Scalar) -> Result<NativeType, Halt> {
    match scalar.kind {
        ScalarKind::Bool => Ok(NativeType::Int(1)),
        ScalarKind::Float => if scalar.width == 2 {
            Ok(NativeType::Half)
        } else if scalar.width == 4 {
            Ok(NativeType::Float)
        } else if scalar.width == 8 {
            Ok(NativeType::Double)
        } else if scalar.width == 16 {
            Ok(NativeType::Quad)
        } else {
            Err(failed(Info::InvalidFloatSize(scalar.width), span))
        },
        ScalarKind::Sint | ScalarKind::Uint => Ok(NativeType::Int((scalar.width * 8) as u32)),
        _ => Err(failed(Info::IllegalScalar(scalar), span)),
    }
}

/// The native vector of `len` lanes of the scalar.
pub open spec fn vector_type(span: Span, scalar: Scalar, len: u32) -> Result<NativeType, Halt> {
    match scalar_type(span, scalar) {
        Ok(element) => Ok(NativeType::Vector { element: Box::new(element), len }),
        Err(halt) => Err(halt),
    }
}

/// The type and byte offset of each member of a struct.
pub open spec fn member_slots(members: Seq<StructMember>) -> Seq<(TypeHandle, u32)> {
    Seq::new(members.len(), |i: int| (members[i].ty, members[i].offset))
}

/// The byte offset at which the member at `offset` is placed when the
/// layout so far ends at `end`: the larger of the two.
pub open spec fn placed_at(end: u32, offset: u32) -> u32 {
    if end < offset {
        offset
    } else {
        end
    }
}

/// Lowers the members of the struct `ty` from member `i` on. `end` is the
/// byte at which the native members so far end, `table` the native indices
/// of the source members so far, and `next` the native index of the next
/// native member.
///
/// Where a member's offset lies beyond `end`, an integer of the missing
/// bytes is put before it. The result is the list of native members from
/// here on and the finished table.
pub open spec fn lower_members(
    s: State,
    span: Span,
    ty: TypeHandle,
    slots: Seq<(TypeHandle, u32)>,
    i: int,
    end: u32,
    table: Seq<u32>,
    next: u32,
) -> (State, Result<(Members, Seq<u32>), Halt>)
    decreases ty.0, 0nat, slots.len() - i,
{
    if i < 0 || i >= slots.len() {
        (s, Ok((Members::End, table)))
    } else {
        let (member, offset) = slots[i];
        let gap = offset - end;
        let index = if end < offset {
            next + 1
        } else {
            next as int
        };
        if gap * 8 > u32::MAX || index + 1 > u32::MAX {
            (s, Err(Halt::Fault(Fault::Arithmetic)))
        } else if member.0 >= ty.0 {
            (s, Err(Halt::Fault(Fault::DanglingHandle)))
        } else {
            let (s1, lowered) = lower_cached_type(s, span, member);
            match lowered {
                Err(halt) => (s1, Err(halt)),
                Ok(native) => match abi_size(s1.layouts, native) {
                    None => (s1, Err(Halt::UnknownLayout(native))),
                    Some(size) => if placed_at(end, offset) + size > u32::MAX {
                        (s1, Err(Halt::Fault(Fault::Arithmetic)))
                    } else {
                        let (s2, rest) = lower_members(
                            s1,
                            span,
                            ty,
                            slots,
                            i + 1,
                            (placed_at(end, offset) + size) as u32,
                            table.push(index as u32),
                            (index + 1) as u32,
                        );
                        match rest {
                            Err(halt) => (s2, Err(halt)),
                            Ok((tail, finished)) => {
                                let here = Members::Then(Box::new(native), Box::new(tail));
                                if end < offset {
                                    (
                                        s2,
                                        Ok(
                                            (
                                                Members::Then(
                                                    Box::new(NativeType::Int((gap * 8) as u32)),
                                                    Box::new(here),
                                                ),
                                                finished,
                                            ),
                                        ),
                                    )
                                } else {
                                    (s2, Ok((here, finished)))
                                }
                            },
                        }
                    },
                },
            }
        }
    }
}

/// Lowers the type `ty` as a value, without looking it up in the cache.
///
/// A scalar or atomic lowers to its native scalar, a vector to a native
/// vector, a matrix to one flat vector of rows times columns elements, a
/// pointer to the opaque pointer, an array to a native array of its length
/// (zero where the length is only known at run time), a struct to a packed
/// struct of its members and the padding between them. Lowering a struct
/// records its table of native member indices. Images, samplers,
/// acceleration structures, ray queries and binding arrays are not
/// implemented.
pub open spec fn lower_type(s: State, span: Span, ty: TypeHandle) -> (State, Result<
    NativeType,
    Halt,
>)
    decreases ty.0, 1nat, 0nat,
{
    match s.inner(ty) {
        Err(halt) => (s, Err(halt)),
        Ok(inner) => match inner {
            TypeInner::Atomic(scalar) | TypeInner::Scalar(scalar) => (s, scalar_type(span, scalar)),
            TypeInner::Vector { size, scalar } => (s, vector_type(span, scalar, size.count())),
            TypeInner::Matrix { columns, rows, scalar } => (
                s,
                vector_type(span, scalar, (rows.count() * columns.count()) as u32),
            ),
            TypeInner::Pointer { .. } | TypeInner::ValuePointer { .. } => (
                s,
                Ok(NativeType::Pointer),
            ),
            TypeInner::Array { base, size, .. } => if base.0 >= ty.0 {
                (s, Err(Halt::Fault(Fault::DanglingHandle)))
            } else {
                let (s1, lowered) = lower_cached_type(s, span, base);
                match lowered {
                    Err(halt) => (s1, Err(halt)),
                    Ok(element) => (
                        s1,
                        Ok(
                            NativeType::Array {
                                element: Box::new(element),
                                len: match size {
                                    ArraySize::Constant(len) => len as u64,
                                    ArraySize::Dynamic => 0,
                                },
                            },
                        ),
                    ),
                }
            },
            TypeInner::Struct { members, .. } => {
                let (s1, lowered) = lower_members(
                    s,
                    span,
                    ty,
                    member_slots(members@),
                    0,
                    0,
                    Seq::empty(),
                    0,
                );
                match lowered {
                    Err(halt) => (s1, Err(halt)),
                    Ok((list, table)) => (
                        State { struct_maps: s1.struct_maps.insert(ty.0, table), ..s1 },
                        Ok(NativeType::Struct { members: list }),
                    ),
                }
            },
            TypeInner::Image { .. }
            | TypeInner::Sampler { .. }
            | TypeInner::AccelerationStructure
            | TypeInner::RayQuery
            | TypeInner::BindingArray { .. } => (s, Err(Halt::Fault(Fault::NotImplemented))),
        },
    }
}

/// Lowers the type `ty` as a value: the cached native type where there is
/// one, else the freshly lowered type, which is then cached.
pub open spec fn lower_cached_type(s: State, span: Span, ty: TypeHandle) -> (State, Result<
    NativeType,
    Halt,
>)
    decreases ty.0, 2nat, 0nat,
{
    if s.type_cache.contains_key(ty.0) {
        (s, Ok(s.type_cache[ty.0]))
    } else {
        let (s1, lowered) = lower_type(s, span, ty);
        match lowered {
            Err(halt) => (s1, Err(halt)),
            Ok(native) => if s1.type_cache.contains_key(ty.0) {
                (s1, Ok(s1.type_cache[ty.0]))
            } else {
                (State { type_cache: s1.type_cache.insert(ty.0, native), ..s1 }, Ok(native))
            },
        }
    }
}

/// The storage form of the type `ty` where it differs from the value form:
/// for a matrix, the array of its columns.
pub open spec fn storage_override(s: State, span: Span, ty: TypeHandle) -> Result<
    Option<NativeType>,
    Halt,
> {
    match s.inner(ty) {
        Err(halt) => Err(halt),
        Ok(TypeInner::Matrix { columns, rows, scalar }) => match vector_type(
            span,
            scalar,
            rows.count(),
        ) {
            Err(halt) => Err(halt),
            Ok(column) => Ok(
                Some(NativeType::Array { element: Box::new(column), len: columns.count() as u64 }),
            ),
        },
        Ok(_) => Ok(None),
    }
}

/// Lowers the type `ty` as storage. A cached storage type is handed back.
/// A matrix lowers to the array of its columns. Any other type lowers as a
/// value: to its cached value type where there is one, else to the freshly
/// lowered type. What was freshly lowered is cached as the storage type.
pub open spec fn lower_cached_pointer_type(s: State, span: Span, ty: TypeHandle) -> (State, Result<
    NativeType,
    Halt,
>) {
    if s.pointer_type_cache.contains_key(ty.0) {
        (s, Ok(s.pointer_type_cache[ty.0]))
    } else {
        match storage_override(s, span, ty) {
            Err(halt) => (s, Err(halt)),
            Ok(Some(native)) => (
                State { pointer_type_cache: s.pointer_type_cache.insert(ty.0, native), ..s },
                Ok(native),
            ),
            Ok(None) => if s.type_cache.contains_key(ty.0) {
                (s, Ok(s.type_cache[ty.0]))
            } else {
                let (s1, lowered) = lower_type(s, span, ty);
                match lowered {
                    Err(halt) => (s1, Err(halt)),
                    Ok(native) => if s1.pointer_type_cache.contains_key(ty.0) {
                        (s1, Ok(s1.pointer_type_cache[ty.0]))
                    } else {
                        (
                            State {
                                pointer_type_cache: s1.pointer_type_cache.insert(ty.0, native),
                                ..s1
                            },
                            Ok(native),
                        )
                    },
                }
            },
        }
    }
}

/// A pointee in an address space.
pub open spec fn in_space(handle: Result<TypeHandle, Halt>, space: AddressSpace) -> Result<
    Option<(TypeHandle, AddressSpace)>,
    Halt,
> {
    match handle {
        Ok(handle) => Ok(Some((handle, space))),
        Err(halt) => Err(halt),
    }
}

/// What the pointer type `ty` points to, and in which address space;
/// `None` where `ty` is no pointer. The pointee of a pointer to a lone
/// scalar or vector is inserted into the module's types.
pub open spec fn pointee(s: State, ty: TypeHandle) -> (State, Result<
    Option<(TypeHandle, AddressSpace)>,
    Halt,
>) {
    match s.inner(ty) {
        Err(halt) => (s, Err(halt)),
        Ok(TypeInner::Pointer { base, space }) => (s, Ok(Some((base, space)))),
        Ok(TypeInner::ValuePointer { size: Some(size), scalar, space }) => {
            let (s1, handle) = s.intern(TypeInner::Vector { size, scalar }, s.type_span(ty));
            (s1, in_space(handle, space))
        },
        Ok(TypeInner::ValuePointer { size: None, scalar, space }) => {
            let (s1, handle) = s.intern(TypeInner::Scalar(scalar), s.type_span(ty));
            (s1, in_space(handle, space))
        },
        Ok(_) => (s, Ok(None)),
    }
}

/// The type of an item of the type `ty`: the scalar of a vector, the
/// column vector of a matrix, the base of an array, and the type of member
/// `index` of a struct. A struct needs an index known at compile time.
pub open spec fn item(s: State, span: Span, ty: TypeHandle, index: Option<usize>) -> (State, Result<
    TypeHandle,
    Halt,
>) {
    match s.inner(ty) {
        Err(halt) => (s, Err(halt)),
        Ok(TypeInner::Vector { scalar, .. }) => s.intern(
            TypeInner::Scalar(scalar),
            s.type_span(ty),
        ),
        Ok(TypeInner::Matrix { rows, scalar, .. }) => s.intern(
            TypeInner::Vector { size: rows, scalar },
            s.type_span(ty),
        ),
        Ok(TypeInner::Array { base, .. }) => (s, Ok(base)),
        Ok(TypeInner::Struct { members, .. }) => match index {
            Some(at) => if at < members@.len() {
                (s, Ok(members@[at as int].ty))
            } else {
                (s, Err(Halt::Fault(Fault::IndexOutOfRange)))
            },
            None => (s, Err(failed(Info::NonConstantIndex, span))),
        },
        Ok(_) => (s, Err(failed(Info::NotIndexable(ty), span))),
    }
}

/// The number of elements of a matrix of `rows` by `columns`.
pub fn flat_len(rows: VectorSize, columns: VectorSize) -> (len: u32)
    ensures
        len == rows.count() * columns.count(),
        len <= 16,
{
    let r: u32 = rows.lanes();
    let c: u32 = columns.lanes();
    assert(r * c <= 16) by (nonlinear_arith)
        requires
            r <= 4,
            c <= 4,
    ;
    r * c
}

impl Generator {
    /// The native type of a scalar.
    pub fn eval_scalar_type(&self, span: Span, scalar: Scalar) -> (lowered: Result<
        NativeType,
        Halt,
    >)
        ensures
            lowered == scalar_type(span, scalar),
    {
        match scalar.kind {
            ScalarKind::Bool => Ok(NativeType::Int(1)),
            ScalarKind::Float => {
                if scalar.width == 2 {
                    Ok(NativeType::Half)
                } else if scalar.width == 4 {
                    Ok(NativeType::Float)
                } else if scalar.width == 8 {
                    Ok(NativeType::Double)
                } else if scalar.width == 16 {
                    Ok(NativeType::Quad)
                } else {
                    Err(fail(Info::InvalidFloatSize(scalar.width), span))
                }
            },
            ScalarKind::Sint | ScalarKind::Uint => {
                let bits: u32 = (scalar.width as u32) * 8;
                Ok(NativeType::Int(bits))
            },
            _ => Err(fail(Info::IllegalScalar(scalar), span)),
        }
    }

    /// The native vector of `len` lanes of the scalar.
    pub fn eval_vector_type(&self, span: Span, scalar: Scalar, len: u32) -> (lowered: Result<
        NativeType,
        Halt,
    >)
        ensures
            lowered == vector_type(span, scalar, len),
    {
        let element = self.eval_scalar_type(span, scalar)?;
        Ok(NativeType::vector(element, len))
    }

    /// Lowers the members of a struct from member `i` on.
    fn eval_members(
        &mut self,
        span: Span,
        ty: TypeHandle,
        slots: &Vec<(TypeHandle, u32)>,
        i: usize,
        end: u32,
        table: Vec<u32>,
        next: u32,
    ) -> (lowered: Result<(Members, Vec<u32>), Halt>)
        ensures
            final(self).module.src.functions == old(self).module.src.functions,
            final(self)@ == lower_members(
                old(self)@,
                span,
                ty,
                slots@,
                i as int,
                end,
                table@,
                next,
            ).0,
            match lowered {
                Ok((list, finished)) => lower_members(
                    old(self)@,
                    span,
                    ty,
                    slots@,
                    i as int,
                    end,
                    table@,
                    next,
                ).1 == Ok::<(Members, Seq<u32>), Halt>((list, finished@)),
                Err(halt) => lower_members(
                    old(self)@,
                    span,
                    ty,
                    slots@,
                    i as int,
                    end,
                    table@,
                    next,
                ).1 == Err::<(Members, Seq<u32>), Halt>(halt),
            },
        decreases ty.0, 0nat, slots@.len() - i,
    {
        if i >= slots.len() {
            return Ok((Members::End, table));
        }
        let (member, offset) = slots[i];
        let padded: bool = end < offset;
        let gap: u32 = if padded {
            offset - end
        } else {
            0
        };
        if gap > u32::MAX / 8 {
            return Err(Halt::Fault(Fault::Arithmetic));
        }
        if next >= u32::MAX - 1 {
            if padded || next == u32::MAX {
                return Err(Halt::Fault(Fault::Arithmetic));
            }
        }
        let index: u32 = if padded {
            next + 1
        } else {
            next
        };
        if member.0 >= ty.0 {
            return Err(Halt::Fault(Fault::DanglingHandle));
        }
        let native = self.eval_cached_type(span, member)?;
        let size: u64 = match self.target_info.abi_size_of(&native) {
            Some(size) => size,
            None => {
                return Err(Halt::UnknownLayout(native));
            },
        };
        let start: u32 = if padded {
            offset
        } else {
            end
        };
        if size > (u32::MAX - start) as u64 {
            return Err(Halt::Fault(Fault::Arithmetic));
        }
        let mut table = table;
        table.push(index);
        let (tail, finished) = self.eval_members(
            span,
            ty,
            slots,
            i + 1,
            start + (size as u32),
            table,
            index + 1,
        )?;
        let here = Members::Then(Box::new(native), Box::new(tail));
        if padded {
            Ok((Members::Then(Box::new(NativeType::Int(gap * 8)), Box::new(here)), finished))
        } else {
            Ok((here, finished))
        }
    }

    /// The type and byte offset of each member of the struct type `ty`;
    /// nothing for another type.
    fn struct_slots(&self, ty: TypeHandle) -> (slots: Vec<(TypeHandle, u32)>)
        ensures
            match self@.inner(ty) {
                Ok(TypeInner::Struct { members, .. }) => slots@ == member_slots(members@),
                _ => slots@.len() == 0,
            },
    {
        let mut slots: Vec<(TypeHandle, u32)> = Vec::new();
        match self.type_inner(ty) {
            Ok(TypeInner::Struct { members, .. }) => {
                let mut i: usize = 0;
                while i < members.len()
                    invariant
                        i <= members@.len(),
                        slots@ == member_slots(members@).subrange(0, i as int),
                    decreases members@.len() - i,
                {
                    slots.push((members[i].ty, members[i].offset));
                    i += 1;
                }
            },
            _ => {},
        }
        slots
    }

    /// Lowers the type `ty` as a value, without looking it up in the cache.
    pub fn eval_type(&mut self, span: Span, ty: TypeHandle) -> (lowered: Result<NativeType, Halt>)
        ensures
            final(self).module.src.functions == old(self).module.src.functions,
            (final(self)@, lowered) == lower_type(old(self)@, span, ty),
        decreases ty.0, 1nat, 0nat,
    {
        match self.type_inner(ty)? {
            TypeInner::Atomic(scalar) | TypeInner::Scalar(scalar) => self.eval_scalar_type(
                span,
                *scalar,
            ),
            TypeInner::Vector { size, scalar } => self.eval_vector_type(
                span,
                *scalar,
                size.lanes(),
            ),
            TypeInner::Matrix { columns, rows, scalar } => {
                let len: u32 = flat_len(*rows, *columns);
                self.eval_vector_type(span, *scalar, len)
            },
            TypeInner::Pointer { .. } | TypeInner::ValuePointer { .. } => Ok(NativeType::Pointer),
            TypeInner::Array { base, size, .. } => {
                let base: TypeHandle = *base;
                let len: u64 = match size {
                    ArraySize::Constant(len) => *len as u64,
                    ArraySize::Dynamic => 0,
                };
                if base.0 >= ty.0 {
                    return Err(Halt::Fault(Fault::DanglingHandle));
                }
                let element = self.eval_cached_type(span, base)?;
                Ok(NativeType::array(element, len))
            },
            TypeInner::Struct { .. } => {
                let slots = self.struct_slots(ty);
                let (list, table) = self.eval_members(span, ty, &slots, 0, 0, Vec::new(), 0)?;
                let ghost before = self@;
                let ghost finished = table@;
                self.struct_maps.insert(ty.0, table);
                proof {
                    assert(self@.struct_maps =~= before.struct_maps.insert(ty.0, finished));
                }
                Ok(NativeType::Struct { members: list })
            },
            TypeInner::Image { .. }
            | TypeInner::Sampler { .. }
            | TypeInner::AccelerationStructure
            | TypeInner::RayQuery
            | TypeInner::BindingArray { .. } => Err(Halt::Fault(Fault::NotImplemented)),
        }
    }

    /// Lowers the type `ty` as a value, through the cache.
    pub fn eval_cached_type(&mut self, span: Span, ty: TypeHandle) -> (lowered: Result<
        NativeType,
        Halt,
    >)
        ensures
            final(self).module.src.functions == old(self).module.src.functions,
            (final(self)@, lowered) == lower_cached_type(old(self)@, span, ty),
        decreases ty.0, 2nat, 0nat,
    {
        if let Some(cached) = self.type_cache.get(&ty.0) {
            return Ok(cached.duplicate());
        }
        let native = self.eval_type(span, ty)?;
        if let Some(cached) = self.type_cache.get(&ty.0) {
            return Ok(cached.duplicate());
        }
        self.type_cache.insert(ty.0, native.duplicate());
        Ok(native)
    }

    /// The storage form of the type `ty` where it differs from the value
    /// form.
    pub fn eval_pointer_type(&self, span: Span, ty: TypeHandle) -> (lowered: Result<
        Option<NativeType>,
        Halt,
    >)
        ensures
            lowered == storage_override(self@, span, ty),
    {
        match self.type_inner(ty)? {
            TypeInner::Matrix { columns, rows, scalar } => {
                let column = self.eval_vector_type(span, *scalar, rows.lanes())?;
                Ok(Some(NativeType::array(column, columns.lanes() as u64)))
            },
            _ => Ok(None),
        }
    }

    /// Lowers the type `ty` as storage, through the cache.
    pub fn eval_cached_pointer_type(&mut self, span: Span, ty: TypeHandle) -> (lowered: Result<
        NativeType,
        Halt,
    >)
        ensures
            final(self).module.src.functions == old(self).module.src.functions,
            (final(self)@, lowered) == lower_cached_pointer_type(old(self)@, span, ty),
    {
        if let Some(cached) = self.pointer_type_cache.get(&ty.0) {
            return Ok(cached.duplicate());
        }
        match self.eval_pointer_type(span, ty)? {
            Some(native) => {
                self.pointer_type_cache.insert(ty.0, native.duplicate());
                Ok(native)
            },
            None => {
                if let Some(cached) = self.type_cache.get(&ty.0) {
                    return Ok(cached.duplicate());
                }
                let native = self.eval_type(span, ty)?;
                if let Some(cached) = self.pointer_type_cache.get(&ty.0) {
                    return Ok(cached.duplicate());
                }
                self.pointer_type_cache.insert(ty.0, native.duplicate());
                Ok(native)
            },
        }
    }

    /// What the pointer type `ty` points to, and in which address space.
    pub fn get_pointee(&mut self, ty: TypeHandle) -> (found: Result<
        Option<(TypeHandle, AddressSpace)>,
        Halt,
    >)
        ensures
            final(self).module.src.functions == old(self).module.src.functions,
            (final(self)@, found) == pointee(old(self)@, ty),
    {
        let span = self.module.src.types.get_span(ty);
        match self.type_inner(ty)? {
            TypeInner::Pointer { base, space } => Ok(Some((*base, *space))),
            TypeInner::ValuePointer { size: Some(size), scalar, space } => {
                let space: AddressSpace = *space;
                let inner = TypeInner::Vector { size: *size, scalar: *scalar };
                let handle = self.insert_type(inner, span)?;
                Ok(Some((handle, space)))
            },
            TypeInner::ValuePointer { size: None, scalar, space } => {
                let space: AddressSpace = *space;
                let inner = TypeInner::Scalar(*scalar);
                let handle = self.insert_type(inner, span)?;
                Ok(Some((handle, space)))
            },
            _ => Ok(None),
        }
    }

    /// The type of an item of the type `ty`.
    pub fn item_type(&mut self, span: Span, ty: TypeHandle, index: Option<usize>) -> (found: Result<
        TypeHandle,
        Halt,
    >)
        ensures
            final(self).module.src.functions == old(self).module.src.functions,
            (final(self)@, found) == item(old(self)@, span, ty, index),
    {
        let ty_span = self.module.src.types.get_span(ty);
        match self.type_inner(ty)? {
            TypeInner::Vector { scalar, .. } => {
                let inner = TypeInner::Scalar(*scalar);
                self.insert_type(inner, ty_span)
            },
            TypeInner::Matrix { rows, scalar, .. } => {
                let inner = TypeInner::Vector { size: *rows, scalar: *scalar };
                self.insert_type(inner, ty_span)
            },
            TypeInner::Array { base, .. } => Ok(*base),
            TypeInner::Struct { members, .. } => match index {
                Some(at) => {
                    if at < members.len() {
                        Ok(members[at].ty)
                    } else {
                        Err(Halt::Fault(Fault::IndexOutOfRange))
                    }
                },
                None => Err(fail(Info::NonConstantIndex, span)),
            },
            _ => Err(fail(Info::NotIndexable(ty), span)),
        }
    }
}

} // verus!
