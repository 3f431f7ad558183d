//! Lowering of statements.
//!
//! A function body is a straight line of statements, lowered one after the
//! other into the function's entry block.

use crate::codegen::error::{fail, failed, Fault, Halt, Info};
use crate::codegen::expressions::eval_cached;
use crate::codegen::expressions::load::store;
use crate::codegen::expressions::location::{span_of, Frame, FunctionState};
use crate::codegen::native::Inst;
use crate::codegen::{Generator, State};
use crate::ir::{span_at, Block, ExprHandle, Span, Statement, TypeHandle};
use vstd::prelude::*;

verus! {

/// Lowers the expressions from `next` up to, but not including, `end`.
pub open spec fn emit_range(s: State, frame: Frame, next: usize, end: usize) -> (State, Result<
    (),
    Halt,
>)
    decreases end - next,
{
    if next >= end {
        (s, Ok(()))
    } else {
        let (s1, lowered) = eval_cached(s, Some(frame), ExprHandle(next));
        match lowered {
            Err(halt) => (s1, Err(halt)),
            Ok(_) => emit_range(s1, frame, (next + 1) as usize, end),
        }
    }
}

/// Lowers a return from a function whose declared result is `result`.
///
/// The returned value must be there exactly when the function declares a
/// result, and must have the declared type. The value is lowered even
/// where the function declares no result, to name its type in the error.
pub open spec fn return_value(
    s: State,
    frame: Frame,
    result: Option<TypeHandle>,
    span: Span,
    value: Option<ExprHandle>,
) -> (State, Result<(), Halt>) {
    match (result, value) {
        (Some(expected), Some(value)) => {
            let (s1, lowered) = eval_cached(s, Some(frame), value);
            match lowered {
                Err(halt) => (s1, Err(halt)),
                Ok((native, ty)) => if expected != ty {
                    (
                        s1,
                        Err(
                            failed(
                                Info::IncorrectReturnType {
                                    expected: Some(expected),
                                    found: Some(ty),
                                },
                                span_of(s1, Some(frame), value),
                            ),
                        ),
                    )
                } else {
                    (s1.emit(Inst::Return { value: native }).0, Ok(()))
                },
            }
        },
        (None, None) => (s.emit(Inst::ReturnVoid).0, Ok(())),
        (Some(expected), None) => (
            s,
            Err(failed(Info::IncorrectReturnType { expected: Some(expected), found: None }, span)),
        ),
        (None, Some(value)) => {
            let (s1, lowered) = eval_cached(s, Some(frame), value);
            match lowered {
                Err(halt) => (s1, Err(halt)),
                Ok((_, ty)) => (
                    s1,
                    Err(
                        failed(
                            Info::IncorrectReturnType { expected: None, found: Some(ty) },
                            span,
                        ),
                    ),
                ),
            }
        },
    }
}

/// Lowers a store of the expression `value` through the expression
/// `pointer`.
pub open spec fn store_statement(
    s: State,
    frame: Frame,
    span: Span,
    pointer: ExprHandle,
    value: ExprHandle,
) -> (State, Result<(), Halt>) {
    let (s1, lowered) = eval_cached(s, Some(frame), pointer);
    match lowered {
        Err(halt) => (s1, Err(halt)),
        Ok((address, _)) => store(s1, Some(frame), span, address, value),
    }
}

/// Lowers the statements of `body` from `i` on, each with the span `span`.
pub open spec fn statements(
    s: State,
    frame: Frame,
    result: Option<TypeHandle>,
    span: Span,
    body: Vec<Statement>,
    i: int,
) -> (State, Result<(), Halt>)
    decreases body, body.len() - i,
{
    if i < 0 || i >= body.len() {
        (s, Ok(()))
    } else {
        let (s1, done) = statement(s, frame, result, span, body[i]);
        match done {
            Err(halt) => (s1, Err(halt)),
            Ok(_) => statements(s1, frame, result, span, body, i + 1),
        }
    }
}

/// Lowers one statement of a function whose declared result is `result`.
/// The statements of a block are lowered in order, under the span of the
/// block. Control flow and the other kinds of statement are not
/// implemented.
pub open spec fn statement(
    s: State,
    frame: Frame,
    result: Option<TypeHandle>,
    span: Span,
    stmt: Statement,
) -> (State, Result<(), Halt>)
    decreases stmt, 0nat,
{
    match stmt {
        Statement::Emit { start, end } => emit_range(s, frame, start, end),
        Statement::Block(block) => statements(s, frame, result, span, block.body, 0),
        Statement::Return { value } => return_value(s, frame, result, span, value),
        Statement::Store { pointer, value } => store_statement(s, frame, span, pointer, value),
        Statement::Other(_) => (s, Err(Halt::Fault(Fault::NotImplemented))),
    }
}

/// Lowers the statements of a function body from `i` on, each with its own
/// span.
pub open spec fn body_from(s: State, frame: Frame, result: Option<TypeHandle>, body: Block, i: int) -> (
    State,
    Result<(), Halt>,
)
    decreases body.body.len() - i,
{
    if i < 0 || i >= body.body.len() {
        (s, Ok(()))
    } else {
        let (s1, done) = statement(
            s,
            frame,
            result,
            span_at(body.span_info@, i),
            body.body[i],
        );
        match done {
            Err(halt) => (s1, Err(halt)),
            Ok(_) => body_from(s1, frame, result, body, i + 1),
        }
    }
}

/// The declared result type of the function of a function state.
pub open spec fn result_of(function: &FunctionState) -> Option<TypeHandle> {
    match function.src_function.result {
        Some(result) => Some(result.ty),
        None => None,
    }
}

impl Generator {
    /// Lowers the expressions from `start` up to, but not including,
    /// `end`.
    pub fn emit_expressions(&mut self, function: &FunctionState, start: usize, end: usize) -> (done:
        Result<(), Halt>)
        ensures
            final(self).module.src.functions == old(self).module.src.functions,
            (final(self)@, done) == emit_range(old(self)@, function@, start, end),
    {
        let mut next: usize = start;
        while next < end
            invariant
                self.module.src.functions == old(self).module.src.functions,
                emit_range(self@, function@, next, end) == emit_range(
                    old(self)@,
                    function@,
                    start,
                    end,
                ),
            decreases end - next,
        {
            self.eval_cached_expr(Some(function), ExprHandle(next))?;
            next += 1;
        }
        Ok(())
    }

    /// Lowers a return.
    pub fn emit_return(&mut self, span: Span, function: &FunctionState, value: Option<ExprHandle>) -> (done:
        Result<(), Halt>)
        ensures
            final(self).module.src.functions == old(self).module.src.functions,
            (final(self)@, done) == return_value(
                old(self)@,
                function@,
                result_of(function),
                span,
                value,
            ),
    {
        match (&function.src_function.result, value) {
            (Some(result), Some(value)) => {
                let expected: TypeHandle = result.ty;
                let (native, ty) = self.eval_cached_expr(Some(function), value)?;
                if expected != ty {
                    return Err(
                        fail(
                            Info::IncorrectReturnType { expected: Some(expected), found: Some(ty) },
                            function.src_function.expressions.get_span(value.0),
                        ),
                    );
                }
                self.emit(Inst::Return { value: native });
                Ok(())
            },
            (None, None) => {
                self.emit(Inst::ReturnVoid);
                Ok(())
            },
            (Some(result), None) => Err(
                fail(
                    Info::IncorrectReturnType { expected: Some(result.ty), found: None },
                    span,
                ),
            ),
            (None, Some(value)) => {
                let (_, ty) = self.eval_cached_expr(Some(function), value)?;
                Err(fail(Info::IncorrectReturnType { expected: None, found: Some(ty) }, span))
            },
        }
    }

    /// Lowers one statement.
    pub fn emit_statement(&mut self, span: Span, function: &FunctionState, stmt: &Statement) -> (done:
        Result<(), Halt>)
        ensures
            final(self).module.src.functions == old(self).module.src.functions,
            (final(self)@, done) == statement(
                old(self)@,
                function@,
                result_of(function),
                span,
                *stmt,
            ),
        decreases stmt, 0nat,
    {
        match stmt {
            Statement::Emit { start, end } => self.emit_expressions(function, *start, *end),
            Statement::Block(block) => {
                let mut i: usize = 0;
                while i < block.body.len()
                    invariant
                        self.module.src.functions == old(self).module.src.functions,
                        *stmt == Statement::Block(*block),
                        statements(
                            self@,
                            function@,
                            result_of(function),
                            span,
                            block.body,
                            i as int,
                        ) == statements(
                            old(self)@,
                            function@,
                            result_of(function),
                            span,
                            block.body,
                            0,
                        ),
                    decreases block.body.len() - i,
                {
                    proof {
                        assert(stmt->Block_0 == *block);
                    }
                    self.emit_statement(span, function, &block.body[i])?;
                    i += 1;
                }
                Ok(())
            },
            Statement::Return { value } => self.emit_return(span, function, *value),
            Statement::Store { pointer, value } => {
                let (address, _) = self.eval_cached_expr(Some(function), *pointer)?;
                self.build_store(Some(function), span, address, *value)
            },
            Statement::Other(_) => Err(Halt::Fault(Fault::NotImplemented)),
        }
    }

    /// Lowers the statements of a function's body, in order.
    pub fn emit_body(&mut self, function: &FunctionState) -> (done: Result<(), Halt>)
        ensures
            final(self).module.src.functions == old(self).module.src.functions,
            (final(self)@, done) == body_from(
                old(self)@,
                function@,
                result_of(function),
                function.src_function.body,
                0,
            ),
    {
        let body = &function.src_function.body;
        let mut i: usize = 0;
        while i < body.body.len()
            invariant
                self.module.src.functions == old(self).module.src.functions,
                body == &function.src_function.body,
                body_from(self@, function@, result_of(function), *body, i as int) == body_from(
                    old(self)@,
                    function@,
                    result_of(function),
                    *body,
                    0,
                ),
            decreases body.body.len() - i,
        {
            let span = if i < body.span_info.len() {
                body.span_info[i]
            } else {
                Span::undefined()
            };
            self.emit_statement(span, function, &body.body[i])?;
            i += 1;
        }
        Ok(())
    }
}

} // verus!
