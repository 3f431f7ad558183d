//! Where an expression is lowered: inside a function, or among the
//! module's global expressions.

use crate::codegen::error::{Fault, Halt};
use crate::codegen::{Generator, State, Typed};
use crate::ir::{span_at, ItemArena, ExprHandle, Expression, Function, Span};
use vstd::prelude::*;

verus! {

/// The part of a function that expressions are lowered against.
pub struct FunctionState<'a> {
    pub src_function: &'a Function,
    /// The lowered local variables, as pointers.
    pub locals: Vec<Typed>,
    /// The lowered parameters.
    pub params: Vec<Typed>,
}

/// The ghost model of a function state.
pub struct Frame {
    pub exprs: Seq<Expression>,
    pub spans: Seq<Span>,
    pub locals: Seq<Typed>,
    pub params: Seq<Typed>,
}

impl<'a> View for FunctionState<'a> {
    type V = Frame;

    open spec fn view(&self) -> Frame {
        Frame {
            exprs: self.src_function.expressions.items(),
            spans: self.src_function.expressions.spans@,
            locals: self.locals@,
            params: self.params@,
        }
    }
}

/// The model of a location: `None` is the global context.
pub open spec fn frame_of(location: Option<&FunctionState>) -> Option<Frame> {
    match location {
        Some(state) => Some(state@),
        None => None,
    }
}

/// The expressions that handles refer to at a location.
pub open spec fn exprs_at(s: State, loc: Option<Frame>) -> Seq<Expression> {
    match loc {
        Some(frame) => frame.exprs,
        None => s.const_expressions,
    }
}

/// The span of the expression `expr` at a location.
pub open spec fn span_of(s: State, loc: Option<Frame>, expr: ExprHandle) -> Span {
    match loc {
        Some(frame) => span_at(frame.spans, expr.0 as int),
        None => span_at(s.const_expression_spans, expr.0 as int),
    }
}

/// A function ranks above the global context: lowering may step from a
/// function into the global expressions, never back.
pub open spec fn rank(loc: Option<Frame>) -> nat {
    match loc {
        Some(_) => 1,
        None => 0,
    }
}

/// The local variable with this index; a fault outside a function.
pub open spec fn local_at(loc: Option<Frame>, index: usize) -> Result<Typed, Halt> {
    match loc {
        None => Err(Halt::Fault(Fault::LocalInGlobalContext)),
        Some(frame) => if index < frame.locals.len() {
            Ok(frame.locals[index as int])
        } else {
            Err(Halt::Fault(Fault::IndexOutOfRange))
        },
    }
}

/// The parameter with this index; a fault outside a function.
pub open spec fn param_at(loc: Option<Frame>, index: u32) -> Result<Typed, Halt> {
    match loc {
        None => Err(Halt::Fault(Fault::ParameterInGlobalContext)),
        Some(frame) => if index < frame.params.len() {
            Ok(frame.params[index as int])
        } else {
            Err(Halt::Fault(Fault::IndexOutOfRange))
        },
    }
}

/// The lowered global variable with this index.
pub open spec fn global_at(s: State, index: usize) -> Result<Typed, Halt> {
    if index < s.globals.len() {
        Ok(s.globals[index as int])
    } else {
        Err(Halt::Fault(Fault::IndexOutOfRange))
    }
}

/// The expressions of a location.
pub fn get_exprs<'a>(generator: &'a Generator, location: Option<&'a FunctionState<'a>>) -> (exprs:
    &'a ItemArena<Expression>)
    ensures
        exprs.items() == exprs_at(generator@, frame_of(location)),
        forall|expr: ExprHandle|
            span_at(exprs.spans@, expr.0 as int) == span_of(generator@, frame_of(location), expr),
{
    match location {
        Some(state) => &state.src_function.expressions,
        None => &generator.module.src.const_expressions,
    }
}

/// The local variable with this index. There are local variables only
/// inside a function: the global context is not to be asked.
pub fn get_local(location: Option<&FunctionState>, index: usize) -> (local: Result<Typed, Halt>)
    requires
        location is Some,
    ensures
        local == local_at(frame_of(location), index),
{
    let state = location.unwrap();
    if index < state.locals.len() {
        Ok(state.locals[index])
    } else {
        Err(Halt::Fault(Fault::IndexOutOfRange))
    }
}

/// The parameter with this index. There are parameters only inside a
/// function: the global context is not to be asked.
pub fn get_param(location: Option<&FunctionState>, index: u32) -> (param: Result<Typed, Halt>)
    requires
        location is Some,
    ensures
        param == param_at(frame_of(location), index),
{
    let state = location.unwrap();
    if (index as usize) < state.params.len() {
        Ok(state.params[index as usize])
    } else {
        Err(Halt::Fault(Fault::IndexOutOfRange))
    }
}

} // verus!
