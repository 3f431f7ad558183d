//! The code generator.
//!
//! A [`Generator`] lowers one shader module. What each step of the lowering
//! does is defined on [`State`], a ghost model of the generator: a step's
//! meaning is a function from the state before it to the state after it and
//! the step's result, and the executable step is proved to compute exactly
//! that. What holds of all steps is proved in [`laws`] and [`growth`].
//!
//! The product of a generation is a list of native constructions in the
//! order in which they were made (see [`native`]). Backends replay the list
//! to build the module in their own terms.
//!
//! No step panics. A step that cannot go on stops with a [`error::Halt`]:
//! an error in the shader, which is the shader author's to mend; a fault of
//! the module, which is a mistake of whoever built it; or a native type
//! whose layout the target description does not hold. The last is how the
//! generator learns about the machine: whoever drives it describes the
//! type that was missing (see [`target::TargetInfo`]) and generates again.

use crate::codegen::error::{Fault, Halt};
use crate::codegen::module::Module;
use crate::codegen::native::{is_constant, yields_constant, Emitted, Inst, NativeType, NativeValue};
use crate::codegen::target::{Layout, TargetInfo};
use crate::ir::{
    span_at, type_position, type_spans_with, types_with, Constant, Expression, GlobalVariable,
    Span, Type, TypeHandle, TypeInner,
};
use std::collections::HashMap;
use vstd::prelude::*;

pub mod assembly;
pub mod error;
pub mod expressions;
pub mod growth;
pub mod laws;
pub mod module;
pub mod native;
pub mod scope;
pub mod statements;
pub mod target;
pub mod types;

verus! {

broadcast use vstd::std_specs::hash::group_hash_axioms;

/// Holds a value for the length of a risky step. Once the step has gone
/// well, `cancel` lets the value go quietly.
pub struct DebugOnDrop<T>(pub T);

impl<T> DebugOnDrop<T> {
    /// Ends the watch and hands the value back untouched.
    pub fn cancel(self) -> (value: T)
        ensures
            value == self.0,
    {
        self.0
    }
}

/// A lowered value with the handle of its source type.
pub type Typed = (NativeValue, TypeHandle);

/// A lowered value with its type, where the type has a handle.
pub open spec fn with_type(value: NativeValue, ty: Result<TypeHandle, Halt>) -> Result<Typed, Halt> {
    match ty {
        Ok(ty) => Ok((value, ty)),
        Err(halt) => Err(halt),
    }
}

/// The ghost model of a generator.
pub struct State {
    /// The module's identifier.
    pub name: Seq<char>,
    /// The name of the file that the shader came from.
    pub source_file: Seq<char>,
    /// The module's types. Lowering adds the types of the values it makes.
    pub types: Seq<Type>,
    pub type_spans: Seq<Span>,
    pub constants: Seq<Constant>,
    pub constant_spans: Seq<Span>,
    pub global_variables: Seq<GlobalVariable>,
    pub global_variable_spans: Seq<Span>,
    pub const_expressions: Seq<Expression>,
    pub const_expression_spans: Seq<Span>,
    /// What the target description holds.
    pub layouts: Seq<Layout>,
    /// The code emitted so far.
    pub code: Seq<Emitted>,
    /// The expressions of the current function that have been lowered.
    pub expr_cache: Map<usize, Typed>,
    /// The native type of each source type lowered as a value.
    pub type_cache: Map<usize, NativeType>,
    /// The native type of each source type lowered as storage.
    pub pointer_type_cache: Map<usize, NativeType>,
    /// The lowered global variables, in declaration order.
    pub globals: Seq<Typed>,
    /// For each lowered struct type, the native member index of each of its
    /// members.
    pub struct_maps: Map<usize, Seq<u32>>,
}

impl State {
    /// The state after `inst` has been emitted, and the value that it
    /// yields.
    pub open spec fn emit(self, inst: Inst) -> (State, NativeValue) {
        (
            State {
                code: self.code.push(
                    Emitted { inst, constant: yields_constant(self.code, inst) },
                ),
                ..self
            },
            NativeValue(self.code.len() as usize),
        )
    }

    /// The state after the nameless type of shape `inner` has been
    /// inserted, and the type's handle. A module that has no handle left
    /// for another type is at fault.
    pub open spec fn intern(self, inner: TypeInner, span: Span) -> (State, Result<
        TypeHandle,
        Halt,
    >) {
        let value = Type::anonymous(inner);
        if self.types.len() >= u32::MAX {
            (self, Err(Halt::Fault(Fault::Arithmetic)))
        } else {
            (
                State {
                    types: types_with(self.types, value),
                    type_spans: type_spans_with(self.types, self.type_spans, value, span),
                    ..self
                },
                Ok(TypeHandle(type_position(self.types, value, 0) as usize)),
            )
        }
    }

    /// The shape of the type at `ty`; a fault where the handle dangles.
    pub open spec fn inner(self, ty: TypeHandle) -> Result<TypeInner, Halt> {
        if ty.0 < self.types.len() {
            Ok(self.types[ty.0 as int].inner)
        } else {
            Err(Halt::Fault(Fault::DanglingHandle))
        }
    }

    /// The span of the type at `ty`.
    pub open spec fn type_span(self, ty: TypeHandle) -> Span {
        span_at(self.type_spans, ty.0 as int)
    }
}

/// A code generator for one shader module.
pub struct Generator {
    pub module: Module,
    pub target_info: TargetInfo,
    pub expr_cache: HashMap<usize, Typed>,
    pub type_cache: HashMap<usize, NativeType>,
    pub pointer_type_cache: HashMap<usize, NativeType>,
    pub globals: Vec<Typed>,
    pub struct_maps: HashMap<usize, Vec<u32>>,
}

impl View for Generator {
    type V = State;

    open spec fn view(&self) -> State {
        State {
            name: self.module.name@,
            source_file: self.module.source_file@,
            types: self.module.src.types.items(),
            type_spans: self.module.src.types.spans@,
            constants: self.module.src.constants.items(),
            constant_spans: self.module.src.constants.spans@,
            global_variables: self.module.src.global_variables.items(),
            global_variable_spans: self.module.src.global_variables.spans@,
            const_expressions: self.module.src.const_expressions.items(),
            const_expression_spans: self.module.src.const_expressions.spans@,
            layouts: self.target_info.layouts@,
            code: self.module.code@,
            expr_cache: self.expr_cache@,
            type_cache: self.type_cache@,
            pointer_type_cache: self.pointer_type_cache@,
            globals: self.globals@,
            struct_maps: self.struct_maps@.map_values(|table: Vec<u32>| table@),
        }
    }
}

impl Generator {
    /// Whether `value` is a compile-time constant.
    pub fn is_constant(&self, value: NativeValue) -> (constant: bool)
        ensures
            constant == is_constant(self@.code, value),
    {
        value.0 < self.module.code.len() && self.module.code[value.0].constant
    }

    fn yields_constant(&self, inst: &Inst) -> (constant: bool)
        ensures
            constant == yields_constant(self@.code, *inst),
    {
        match inst {
            Inst::ConstU64(_)
            | Inst::ConstU32(_)
            | Inst::ConstI64(_)
            | Inst::ConstI32(_)
            | Inst::ConstBool(_)
            | Inst::ConstF32(_)
            | Inst::ConstF64(_)
            | Inst::ConstNull(_)
            | Inst::Undef(_)
            | Inst::ConstVector { .. }
            | Inst::Global { .. }
            | Inst::Function { .. } => true,
            Inst::InsertElement { vector, element, index } => self.is_constant(*vector)
                && self.is_constant(*element) && self.is_constant(*index),
            Inst::ExtractElement { vector, index } => self.is_constant(*vector)
                && self.is_constant(*index),
            Inst::InsertValue { aggregate, element, .. } => self.is_constant(*aggregate)
                && self.is_constant(*element),
            Inst::ExtractValue { aggregate, .. } => self.is_constant(*aggregate),
            Inst::ShuffleVector { first, second, mask } => self.is_constant(*first)
                && self.is_constant(*second) && self.is_constant(*mask),
            Inst::ElementPointer { base, zero, index, .. } => self.is_constant(*base)
                && self.is_constant(*zero) && self.is_constant(*index),
            Inst::Binary { lhs, rhs, .. } => self.is_constant(*lhs) && self.is_constant(*rhs),
            _ => false,
        }
    }

    /// Appends `inst` to the code and returns the value that it yields.
    pub fn emit(&mut self, inst: Inst) -> (value: NativeValue)
        ensures
            final(self).module.src.functions == old(self).module.src.functions,
            (final(self)@, value) == old(self)@.emit(inst),
    {
        let constant: bool = self.yields_constant(&inst);
        let value = NativeValue(self.module.code.len());
        self.module.code.push(Emitted { inst, constant });
        value
    }

    /// Inserts the nameless type of shape `inner` into the module's types
    /// and returns its handle.
    pub fn insert_type(&mut self, inner: TypeInner, span: Span) -> (handle: Result<
        TypeHandle,
        Halt,
    >)
        ensures
            final(self).module.src.functions == old(self).module.src.functions,
            (final(self)@, handle) == old(self)@.intern(inner, span),
    {
        match self.module.src.types.insert(Type { name: None, inner }, span) {
            Some(handle) => Ok(handle),
            None => Err(Halt::Fault(Fault::Arithmetic)),
        }
    }

    /// The shape of the type at `ty`.
    pub fn type_inner(&self, ty: TypeHandle) -> (inner: Result<&TypeInner, Halt>)
        ensures
            match inner {
                Ok(shape) => self@.inner(ty) == Ok::<TypeInner, Halt>(*shape),
                Err(halt) => self@.inner(ty) == Err::<TypeInner, Halt>(halt),
            },
    {
        match self.module.src.types.try_get(ty) {
            Some(found) => Ok(&found.inner),
            None => Err(Halt::Fault(Fault::DanglingHandle)),
        }
    }
}

} // verus!
