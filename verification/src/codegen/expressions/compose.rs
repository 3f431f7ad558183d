//! Lowering of compositions.

use crate::codegen::error::{fail, failed, Fault, Halt, Info};
use crate::codegen::expressions::location::{frame_of, rank, Frame, FunctionState};
use crate::codegen::expressions::operand;
use crate::codegen::native::{Inst, NativeValue};
use crate::codegen::types::lower_cached_type;
use crate::codegen::{Generator, State, Typed};
use crate::ir::{ExprHandle, Span, TypeHandle, TypeInner};
use vstd::prelude::*;

verus! {

broadcast use vstd::std_specs::hash::group_hash_axioms;

/// What is being composed.
#[derive(Clone, Copy, Debug, PartialEq, Eq, Structural)]
pub enum Composite {
    Vector,
    Matrix,
    Array,
    Struct,
}

/// A copy of a list of plain values.
pub fn copy_of<T: Copy>(list: &Vec<T>) -> (copy: Vec<T>)
    ensures
        copy@ == list@,
{
    let mut copy: Vec<T> = Vec::new();
    let mut i: usize = 0;
    while i < list.len()
        invariant
            i <= list@.len(),
            copy@ == list@.subrange(0, i as int),
        decreases list@.len() - i,
    {
        copy.push(list[i]);
        i += 1;
    }
    copy
}

/// Puts the components from `i` on into `value`, each at its place.
///
/// A component of a vector goes to the lane of its position, a column of
/// a matrix or an element of an array to the index of its position, and a
/// member of a struct to the native index that `table` gives for its
/// position, so that padding is passed over. A column of a matrix must be
/// a vector. Components of a struct beyond the table are left out.
pub open spec fn compose_items(
    s: State,
    loc: Option<Frame>,
    bound: ExprHandle,
    span: Span,
    kind: Composite,
    components: Seq<ExprHandle>,
    table: Seq<u32>,
    i: int,
    value: NativeValue,
) -> (State, Result<NativeValue, Halt>)
    decreases rank(loc), bound.0, 0nat, 1 + components.len() - i,
{
    if i < 0 || i >= components.len() || (kind == Composite::Struct && i >= table.len()) {
        (s, Ok(value))
    } else if i > u32::MAX {
        (s, Err(Halt::Fault(Fault::Arithmetic)))
    } else {
        let (s1, lowered) = operand(s, loc, bound, components[i]);
        match lowered {
            Err(halt) => (s1, Err(halt)),
            Ok((component, ty)) => match kind {
                Composite::Vector => {
                    let (s2, at) = s1.emit(Inst::ConstU64(i as u64));
                    let (s3, next) = s2.emit(
                        Inst::InsertElement { vector: value, element: component, index: at },
                    );
                    compose_items(s3, loc, bound, span, kind, components, table, i + 1, next)
                },
                Composite::Matrix => match s1.inner(ty) {
                    Err(halt) => (s1, Err(halt)),
                    Ok(TypeInner::Vector { .. }) => {
                        let (s2, next) = s1.emit(
                            Inst::InsertValue {
                                aggregate: value,
                                element: component,
                                index: i as u32,
                            },
                        );
                        compose_items(s2, loc, bound, span, kind, components, table, i + 1, next)
                    },
                    Ok(_) => (s1, Err(failed(Info::InvalidComponent(ty), span))),
                },
                Composite::Array => {
                    let (s2, next) = s1.emit(
                        Inst::InsertValue { aggregate: value, element: component, index: i as u32 },
                    );
                    compose_items(s2, loc, bound, span, kind, components, table, i + 1, next)
                },
                Composite::Struct => {
                    let (s2, next) = s1.emit(
                        Inst::InsertValue {
                            aggregate: value,
                            element: component,
                            index: table[i],
                        },
                    );
                    compose_items(s2, loc, bound, span, kind, components, table, i + 1, next)
                },
            },
        }
    }
}

/// A lowered value with the type `ty`.
pub open spec fn typed(lowered: (State, Result<NativeValue, Halt>), ty: TypeHandle) -> (
    State,
    Result<Typed, Halt>,
) {
    match lowered.1 {
        Err(halt) => (lowered.0, Err(halt)),
        Ok(value) => (lowered.0, Ok((value, ty))),
    }
}

/// How a value of the shape `inner` is composed, if it can be.
pub open spec fn composite_of(inner: TypeInner) -> Option<Composite> {
    match inner {
        TypeInner::Vector { .. } => Some(Composite::Vector),
        TypeInner::Matrix { .. } => Some(Composite::Matrix),
        TypeInner::Array { .. } => Some(Composite::Array),
        TypeInner::Struct { .. } => Some(Composite::Struct),
        _ => None,
    }
}

/// Lowers the composition of a value of the type `ty` from `components`,
/// operands of the expression `bound`: a placeholder of the lowered type,
/// into which the components are put one after the other. Only a vector,
/// a matrix, an array or a struct can be composed.
pub open spec fn compose(
    s: State,
    loc: Option<Frame>,
    bound: ExprHandle,
    span: Span,
    ty: TypeHandle,
    components: Seq<ExprHandle>,
) -> (State, Result<Typed, Halt>)
    decreases rank(loc), bound.0, 0nat, 2 + components.len(),
{
    match s.inner(ty) {
        Err(halt) => (s, Err(halt)),
        Ok(inner) => match composite_of(inner) {
            None => (s, Err(failed(Info::NotComposable(ty), span))),
            Some(kind) => {
                let (s1, lowered) = lower_cached_type(s, span, ty);
                match lowered {
                    Err(halt) => (s1, Err(halt)),
                    Ok(native) => {
                        let (s2, undef) = s1.emit(Inst::Undef(native));
                        if kind == Composite::Struct && !s2.struct_maps.contains_key(ty.0) {
                            (s2, Err(Halt::Fault(Fault::UnmappedStruct)))
                        } else {
                            let table = if kind == Composite::Struct {
                                s2.struct_maps[ty.0]
                            } else {
                                Seq::empty()
                            };
                            typed(
                                compose_items(
                                    s2,
                                    loc,
                                    bound,
                                    span,
                                    kind,
                                    components,
                                    table,
                                    0,
                                    undef,
                                ),
                                ty,
                            )
                        }
                    },
                }
            },
        },
    }
}

impl Generator {
    fn composite(&self, ty: TypeHandle) -> (kind: Result<Option<Composite>, Halt>)
        ensures
            kind == match self@.inner(ty) {
                Err(halt) => Err::<Option<Composite>, Halt>(halt),
                Ok(inner) => Ok(composite_of(inner)),
            },
    {
        match self.type_inner(ty)? {
            TypeInner::Vector { .. } => Ok(Some(Composite::Vector)),
            TypeInner::Matrix { .. } => Ok(Some(Composite::Matrix)),
            TypeInner::Array { .. } => Ok(Some(Composite::Array)),
            TypeInner::Struct { .. } => Ok(Some(Composite::Struct)),
            _ => Ok(None),
        }
    }

    fn is_vector(&self, ty: TypeHandle) -> (vector: Result<bool, Halt>)
        ensures
            vector == match self@.inner(ty) {
                Err(halt) => Err::<bool, Halt>(halt),
                Ok(TypeInner::Vector { .. }) => Ok(true),
                Ok(_) => Ok(false),
            },
    {
        match self.type_inner(ty)? {
            TypeInner::Vector { .. } => Ok(true),
            _ => Ok(false),
        }
    }

    /// Lowers the composition of a value of the type `ty` from
    /// `components`, operands of the expression `bound`.
    pub fn build_compose(
        &mut self,
        location: Option<&FunctionState>,
        bound: ExprHandle,
        span: Span,
        ty: TypeHandle,
        components: Vec<ExprHandle>,
    ) -> (lowered: Result<Typed, Halt>)
        ensures
            final(self).module.src.functions == old(self).module.src.functions,
            (final(self)@, lowered) == compose(
                old(self)@,
                frame_of(location),
                bound,
                span,
                ty,
                components@,
            ),
        decreases rank(frame_of(location)), bound.0, 0nat, 2 + components@.len(),
    {
        let kind: Composite = match self.composite(ty)? {
            Some(kind) => kind,
            None => {
                return Err(fail(Info::NotComposable(ty), span));
            },
        };
        let native = self.eval_cached_type(span, ty)?;
        let undef = self.emit(Inst::Undef(native));
        let table: Vec<u32> = match kind {
            Composite::Struct => match self.struct_maps.get(&ty.0) {
                Some(table) => copy_of(table),
                None => {
                    return Err(Halt::Fault(Fault::UnmappedStruct));
                },
            },
            _ => Vec::new(),
        };
        let ghost start = self@;
        let ghost loc = frame_of(location);
        let mut value = undef;
        let mut i: usize = 0;
        while i < components.len() && (kind != Composite::Struct || i < table.len())
            invariant
                self.module.src.functions == old(self).module.src.functions,
                i <= components@.len(),
                loc == frame_of(location),
                compose(old(self)@, loc, bound, span, ty, components@) == typed(
                    compose_items(start, loc, bound, span, kind, components@, table@, 0, undef),
                    ty,
                ),
                compose_items(self@, loc, bound, span, kind, components@, table@, i as int, value)
                    == compose_items(start, loc, bound, span, kind, components@, table@, 0, undef),
            decreases components@.len() - i,
        {
            if i > u32::MAX as usize {
                return Err(Halt::Fault(Fault::Arithmetic));
            }
            let (component, component_ty) = self.eval_operand(location, bound, components[i])?;
            match kind {
                Composite::Vector => {
                    let at = self.emit(Inst::ConstU64(i as u64));
                    value = self.emit(
                        Inst::InsertElement { vector: value, element: component, index: at },
                    );
                },
                Composite::Matrix => {
                    if !self.is_vector(component_ty)? {
                        return Err(fail(Info::InvalidComponent(component_ty), span));
                    }
                    value = self.emit(
                        Inst::InsertValue {
                            aggregate: value,
                            element: component,
                            index: i as u32,
                        },
                    );
                },
                Composite::Array => {
                    value = self.emit(
                        Inst::InsertValue {
                            aggregate: value,
                            element: component,
                            index: i as u32,
                        },
                    );
                },
                Composite::Struct => {
                    value = self.emit(
                        Inst::InsertValue {
                            aggregate: value,
                            element: component,
                            index: table[i],
                        },
                    );
                },
            }
            i += 1;
        }
        Ok((value, ty))
    }
}

} // verus!
