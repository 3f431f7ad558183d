//! Lowering of expressions.
//!
//! An expression lowers to a native value and the handle of its source
//! type. Inside a function, each expression is lowered once: the result is
//! kept and handed out again on every later request. Global expressions
//! are lowered anew each time, so that they never mix with the
//! expressions of the function that refers to them.

use crate::codegen::error::{Fault, Halt};
use crate::codegen::expressions::access::access;
use crate::codegen::expressions::binary::binary;
use crate::codegen::expressions::compose::{compose, copy_of};
use crate::codegen::expressions::index::Index;
use crate::codegen::expressions::load::load;
use crate::codegen::expressions::literal::literal;
use crate::codegen::expressions::location::{
    exprs_at, frame_of, get_exprs, get_local, get_param, global_at, local_at, param_at, rank,
    span_of, Frame, FunctionState,
};
use crate::codegen::expressions::splat::splat;
use crate::codegen::expressions::swizzle::swizzle;
use crate::codegen::native::Inst;
use crate::codegen::types::lower_cached_type;
use crate::codegen::{Generator, State, Typed};
use crate::ir::{ExprHandle, Expression, Span, SwizzleComponent, TypeHandle};
use vstd::prelude::*;

pub mod access;
pub mod binary;
pub mod compose;
pub mod index;
pub mod literal;
pub mod load;
pub mod location;
pub mod splat;
pub mod swizzle;

verus! {

broadcast use vstd::std_specs::hash::group_hash_axioms;

/// The lanes that a swizzle pattern selects.
pub open spec fn lanes_of(pattern: [SwizzleComponent; 4]) -> Seq<usize> {
    seq![
        pattern@[0].position() as usize,
        pattern@[1].position() as usize,
        pattern@[2].position() as usize,
        pattern@[3].position() as usize,
    ]
}

/// Lowers the zero value of the type `ty`.
pub open spec fn zero_value(s: State, span: Span, ty: TypeHandle) -> (State, Result<Typed, Halt>) {
    let (s1, lowered) = lower_cached_type(s, span, ty);
    match lowered {
        Err(halt) => (s1, Err(halt)),
        Ok(native) => {
            let (s2, value) = s1.emit(Inst::ConstNull(native));
            (s2, Ok((value, ty)))
        },
    }
}

/// Lowers `expr` as an operand of the expression `bound`. An operand comes
/// before the expression that uses it: one that does not is a fault.
pub open spec fn operand(s: State, loc: Option<Frame>, bound: ExprHandle, expr: ExprHandle) -> (
    State,
    Result<Typed, Halt>,
)
    decreases rank(loc), bound.0, 0nat, 0nat,
{
    if expr.0 < bound.0 {
        eval_cached(s, loc, expr)
    } else {
        (s, Err(Halt::Fault(Fault::DanglingHandle)))
    }
}

/// Lowers the expression `expr` at the location `loc`, whatever has been
/// lowered before.
pub open spec fn eval(s: State, loc: Option<Frame>, expr: ExprHandle) -> (State, Result<
    Typed,
    Halt,
>)
    decreases rank(loc), expr.0, 1nat, 0nat,
{
    if expr.0 >= exprs_at(s, loc).len() {
        (s, Err(Halt::Fault(Fault::DanglingHandle)))
    } else {
        let span = span_of(s, loc, expr);
        match exprs_at(s, loc)[expr.0 as int] {
            Expression::Literal(value) => literal(s, span, value),
            Expression::Constant(constant) => if constant >= s.constants.len() {
                (s, Err(Halt::Fault(Fault::DanglingHandle)))
            } else if loc.is_none() && s.constants[constant as int].init.0 >= expr.0 {
                (s, Err(Halt::Fault(Fault::DanglingHandle)))
            } else {
                eval(s, None, s.constants[constant as int].init)
            },
            Expression::ZeroValue(ty) => zero_value(s, span, ty),
            Expression::Compose { ty, components } => compose(
                s,
                loc,
                expr,
                span,
                ty,
                components@,
            ),
            Expression::Access { base, index } => access(
                s,
                loc,
                expr,
                span,
                base,
                Index::Dynamic(index),
            ),
            Expression::AccessIndex { base, index } => access(
                s,
                loc,
                expr,
                span,
                base,
                Index::Constant(index),
            ),
            Expression::Splat { size, value } => splat(s, loc, expr, span, value, size),
            Expression::Swizzle { size, vector, pattern } => {
                let (s1, lowered) = operand(s, loc, expr, vector);
                match lowered {
                    Err(halt) => (s1, Err(halt)),
                    Ok((value, ty)) => swizzle(s1, span, size, value, ty, lanes_of(pattern)),
                }
            },
            Expression::FunctionArgument(index) => (s, param_at(loc, index)),
            Expression::GlobalVariable(index) => (s, global_at(s, index)),
            Expression::LocalVariable(index) => (s, local_at(loc, index)),
            Expression::Load { pointer } => load(s, loc, expr, span, pointer),
            Expression::Binary { op, left, right } => binary(s, loc, expr, span, op, left, right),
            Expression::Other(_) => (s, Err(Halt::Fault(Fault::NotImplemented))),
        }
    }
}

/// Lowers the expression `expr` at the location `loc`. Inside a function,
/// an expression that has been lowered before yields what it yielded
/// then, and nothing is emitted; one that is lowered now is remembered.
pub open spec fn eval_cached(s: State, loc: Option<Frame>, expr: ExprHandle) -> (State, Result<
    Typed,
    Halt,
>)
    decreases rank(loc), expr.0, 2nat, 0nat,
{
    if loc.is_none() {
        eval(s, loc, expr)
    } else if s.expr_cache.contains_key(expr.0) {
        (s, Ok(s.expr_cache[expr.0]))
    } else {
        let (s1, lowered) = eval(s, loc, expr);
        match lowered {
            Err(halt) => (s1, Err(halt)),
            Ok(value) => if s1.expr_cache.contains_key(expr.0) {
                (s1, Ok(s1.expr_cache[expr.0]))
            } else {
                (State { expr_cache: s1.expr_cache.insert(expr.0, value), ..s1 }, Ok(value))
            },
        }
    }
}

impl Generator {
    /// Lowers the zero value of the type `ty`.
    pub fn build_zero_value(&mut self, span: Span, ty: TypeHandle) -> (lowered: Result<
        Typed,
        Halt,
    >)
        ensures
            final(self).module.src.functions == old(self).module.src.functions,
            (final(self)@, lowered) == zero_value(old(self)@, span, ty),
    {
        let native = self.eval_cached_type(span, ty)?;
        let value = self.emit(Inst::ConstNull(native));
        Ok((value, ty))
    }

    /// Lowers `expr` as an operand of the expression `bound`.
    pub fn eval_operand(
        &mut self,
        location: Option<&FunctionState>,
        bound: ExprHandle,
        expr: ExprHandle,
    ) -> (lowered: Result<Typed, Halt>)
        ensures
            final(self).module.src.functions == old(self).module.src.functions,
            (final(self)@, lowered) == operand(old(self)@, frame_of(location), bound, expr),
        decreases rank(frame_of(location)), bound.0, 0nat, 0nat,
    {
        if expr.0 < bound.0 {
            self.eval_cached_expr(location, expr)
        } else {
            Err(Halt::Fault(Fault::DanglingHandle))
        }
    }

    /// Lowers the expression `expr`, whatever has been lowered before.
    pub fn eval_expr(&mut self, location: Option<&FunctionState>, expr: ExprHandle) -> (lowered:
        Result<Typed, Halt>)
        ensures
            final(self).module.src.functions == old(self).module.src.functions,
            (final(self)@, lowered) == eval(old(self)@, frame_of(location), expr),
        decreases rank(frame_of(location)), expr.0, 1nat, 0nat,
    {
        let exprs = get_exprs(self, location);
        let span = exprs.get_span(expr.0);
        let node = match exprs.try_get(expr.0) {
            Some(node) => node,
            None => {
                return Err(Halt::Fault(Fault::DanglingHandle));
            },
        };
        match node {
            Expression::Literal(value) => {
                let value = *value;
                self.build_literal(span, value)
            },
            Expression::Constant(constant) => {
                let init: ExprHandle = match self.module.src.constants.try_get(*constant) {
                    Some(found) => found.init,
                    None => {
                        return Err(Halt::Fault(Fault::DanglingHandle));
                    },
                };
                if location.is_none() && init.0 >= expr.0 {
                    return Err(Halt::Fault(Fault::DanglingHandle));
                }
                self.eval_expr(None, init)
            },
            Expression::ZeroValue(ty) => {
                let ty: TypeHandle = *ty;
                self.build_zero_value(span, ty)
            },
            Expression::Compose { ty, components } => {
                let ty: TypeHandle = *ty;
                let components = copy_of(components);
                self.build_compose(location, expr, span, ty, components)
            },
            Expression::Access { base, index } => {
                let base: ExprHandle = *base;
                let index = Index::Dynamic(*index);
                self.build_access(location, expr, span, base, index)
            },
            Expression::AccessIndex { base, index } => {
                let base: ExprHandle = *base;
                let index = Index::Constant(*index);
                self.build_access(location, expr, span, base, index)
            },
            Expression::Splat { size, value } => {
                let size = *size;
                let value: ExprHandle = *value;
                self.build_splat(location, expr, span, value, size)
            },
            Expression::Swizzle { size, vector, pattern } => {
                let size = *size;
                let vector: ExprHandle = *vector;
                let lanes: [usize; 4] = [
                    pattern[0].index(),
                    pattern[1].index(),
                    pattern[2].index(),
                    pattern[3].index(),
                ];
                let (value, ty) = self.eval_operand(location, expr, vector)?;
                self.build_swizzle(span, size, value, ty, lanes)
            },
            Expression::FunctionArgument(index) => {
                if location.is_none() {
                    Err(Halt::Fault(Fault::ParameterInGlobalContext))
                } else {
                    get_param(location, *index)
                }
            },
            Expression::GlobalVariable(index) => {
                if *index < self.globals.len() {
                    Ok(self.globals[*index])
                } else {
                    Err(Halt::Fault(Fault::IndexOutOfRange))
                }
            },
            Expression::LocalVariable(index) => {
                if location.is_none() {
                    Err(Halt::Fault(Fault::LocalInGlobalContext))
                } else {
                    get_local(location, *index)
                }
            },
            Expression::Load { pointer } => {
                let pointer: ExprHandle = *pointer;
                self.build_load(location, expr, span, pointer)
            },
            Expression::Binary { op, left, right } => {
                let op = *op;
                let left: ExprHandle = *left;
                let right: ExprHandle = *right;
                self.build_binary(location, expr, span, op, left, right)
            },
            Expression::Other(_) => Err(Halt::Fault(Fault::NotImplemented)),
        }
    }

    /// Lowers the expression `expr`; inside a function, once only.
    pub fn eval_cached_expr(&mut self, location: Option<&FunctionState>, expr: ExprHandle) -> (lowered:
        Result<Typed, Halt>)
        ensures
            final(self).module.src.functions == old(self).module.src.functions,
            (final(self)@, lowered) == eval_cached(old(self)@, frame_of(location), expr),
        decreases rank(frame_of(location)), expr.0, 2nat, 0nat,
    {
        if location.is_none() {
            return self.eval_expr(location, expr);
        }
        if let Some(cached) = self.expr_cache.get(&expr.0) {
            return Ok(*cached);
        }
        let value = self.eval_expr(location, expr)?;
        if let Some(cached) = self.expr_cache.get(&expr.0) {
            return Ok(*cached);
        }
        self.expr_cache.insert(expr.0, value);
        Ok(value)
    }
}

} // verus!
