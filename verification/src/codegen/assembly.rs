//! Assembly of a module: its global variables, then its functions.
//!
//! A function is lowered in a fixed order: its signature, its entry block,
//! its local variables, its parameters, and the statements of its body.

use crate::codegen::error::{fail, failed, Error, Fault, Halt, Info};
use crate::codegen::expressions::eval_cached;
use crate::codegen::growth::{generation_grows, grows};
use crate::codegen::scope::{generation_sound, sound};
use crate::codegen::expressions::load::store;
use crate::codegen::expressions::location::{Frame, FunctionState};
use crate::codegen::module::Module;
use crate::codegen::native::{is_constant, Inst, Members, NativeType, NativeValue};
use crate::codegen::statements::body_from;
use crate::codegen::target::TargetInfo;
use crate::codegen::types::{lower_cached_pointer_type, lower_cached_type};
use crate::codegen::{Generator, State, Typed};
use crate::ir::{
    span_at, undefined_span, AddressSpace, ItemArena, ExprHandle, Function, FunctionArgument,
    GlobalVariable, Span, SrcModule, TypeHandle, TypeInner,
};
use std::collections::HashMap;
use vstd::prelude::*;

verus! {

broadcast use vstd::std_specs::hash::group_hash_axioms;

/// Lowers the types of the arguments from `i` on.
pub open spec fn lower_params(s: State, arguments: Seq<FunctionArgument>, i: int) -> (State, Result<
    Members,
    Halt,
>)
    decreases arguments.len() - i,
{
    if i < 0 || i >= arguments.len() {
        (s, Ok(Members::End))
    } else {
        let (s1, lowered) = lower_cached_type(s, undefined_span(), arguments[i].ty);
        match lowered {
            Err(halt) => (s1, Err(halt)),
            Ok(native) => {
                let (s2, rest) = lower_params(s1, arguments, i + 1);
                match rest {
                    Err(halt) => (s2, Err(halt)),
                    Ok(tail) => (s2, Ok(Members::Then(Box::new(native), Box::new(tail)))),
                }
            },
        }
    }
}

/// Lowers the result type of a function: nothing lowers to `Void`.
pub open spec fn lower_result(s: State, function: Function) -> (State, Result<NativeType, Halt>) {
    match function.result {
        Some(result) => lower_cached_type(s, undefined_span(), result.ty),
        None => (s, Ok(NativeType::Void)),
    }
}

/// Declares the function with the index `index` and opens its entry
/// block. The function must have a name.
pub open spec fn declare_function(s: State, index: usize, function: Function) -> (State, Result<
    NativeValue,
    Halt,
>) {
    let (s1, params) = lower_params(s, function.arguments@, 0);
    match params {
        Err(halt) => (s1, Err(halt)),
        Ok(params) => {
            let (s2, result) = lower_result(s1, function);
            match result {
                Err(halt) => (s2, Err(halt)),
                Ok(result) => if function.name.is_none() {
                    (s2, Err(Halt::Fault(Fault::Unnamed)))
                } else {
                    let (s3, declared) = s2.emit(
                        Inst::Function {
                            function: index,
                            ty: NativeType::Function { result: Box::new(result), params },
                        },
                    );
                    let (s4, _) = s3.emit(Inst::EntryBlock { function: declared });
                    (s4, Ok(declared))
                },
            }
        },
    }
}

/// The frame of a function with these local variables and parameters.
pub open spec fn frame(function: Function, locals: Seq<Typed>, params: Seq<Typed>) -> Frame {
    Frame {
        exprs: function.expressions.items(),
        spans: function.expressions.spans@,
        locals,
        params,
    }
}

/// Lowers the local variables of a function from `i` on: storage of the
/// variable's type on the stack, then a store of the initial value, if
/// there is one. The variable is known in the function as a pointer to
/// its type, only after its initial value has been lowered.
pub open spec fn locals_from(
    s: State,
    function: Function,
    params: Seq<Typed>,
    locals: Seq<Typed>,
    i: int,
) -> (State, Result<Seq<Typed>, Halt>)
    decreases function.local_variables.items().len() - i,
{
    if i < 0 || i >= function.local_variables.items().len() {
        (s, Ok(locals))
    } else {
        let ty = function.local_variables.items()[i].ty;
        let (s1, lowered) = lower_cached_pointer_type(s, s.type_span(ty), ty);
        match lowered {
            Err(halt) => (s1, Err(halt)),
            Ok(native) => {
                let (s2, pointer) = s1.emit(Inst::Alloca { ty: native });
                let (s3, stored) = match function.local_variables.items()[i].init {
                    Some(init) => store(
                        s2,
                        Some(frame(function, locals, params)),
                        span_at(function.local_variables.spans@, i),
                        pointer,
                        init,
                    ),
                    None => (s2, Ok(())),
                };
                match stored {
                    Err(halt) => (s3, Err(halt)),
                    Ok(_) => {
                        let (s4, handle) = s3.intern(
                            TypeInner::Pointer { base: ty, space: AddressSpace::Function },
                            s3.type_span(ty),
                        );
                        match handle {
                            Err(halt) => (s4, Err(halt)),
                            Ok(handle) => locals_from(
                                s4,
                                function,
                                params,
                                locals.push((pointer, handle)),
                                i + 1,
                            ),
                        }
                    },
                }
            },
        }
    }
}

/// Binds the parameters of the declared function `declared` from `i` on,
/// each to the type of its argument.
pub open spec fn params_from(
    s: State,
    declared: NativeValue,
    arguments: Seq<FunctionArgument>,
    params: Seq<Typed>,
    i: int,
) -> (State, Result<Seq<Typed>, Halt>)
    decreases arguments.len() - i,
{
    if i < 0 || i >= arguments.len() {
        (s, Ok(params))
    } else if i > u32::MAX {
        (s, Err(Halt::Fault(Fault::Arithmetic)))
    } else {
        let (s1, param) = s.emit(Inst::Parameter { function: declared, index: i as u32 });
        params_from(s1, declared, arguments, params.push((param, arguments[i].ty)), i + 1)
    }
}

/// The declared result type of a function.
pub open spec fn declared_result(function: Function) -> Option<TypeHandle> {
    match function.result {
        Some(result) => Some(result.ty),
        None => None,
    }
}

/// Lowers the function with the index `index`. What was remembered of the
/// expressions of the function before is forgotten first.
pub open spec fn function(s: State, index: usize, function: Function) -> (State, Result<(), Halt>) {
    let (s1, declared) = declare_function(
        State { expr_cache: Map::empty(), ..s },
        index,
        function,
    );
    match declared {
        Err(halt) => (s1, Err(halt)),
        Ok(declared) => {
            let (s2, locals) = locals_from(s1, function, Seq::empty(), Seq::empty(), 0);
            match locals {
                Err(halt) => (s2, Err(halt)),
                Ok(locals) => {
                    let (s3, params) = params_from(
                        s2,
                        declared,
                        function.arguments@,
                        Seq::empty(),
                        0,
                    );
                    match params {
                        Err(halt) => (s3, Err(halt)),
                        Ok(params) => body_from(
                            s3,
                            frame(function, locals, params),
                            declared_result(function),
                            function.body,
                            0,
                        ),
                    }
                },
            }
        },
    }
}

/// Lowers the functions from `i` on.
pub open spec fn functions_from(s: State, functions: Seq<Function>, i: int) -> (State, Result<
    (),
    Halt,
>)
    decreases functions.len() - i,
{
    if i < 0 || i >= functions.len() {
        (s, Ok(()))
    } else {
        let (s1, done) = function(s, i as usize, functions[i]);
        match done {
            Err(halt) => (s1, Err(halt)),
            Ok(_) => functions_from(s1, functions, i + 1),
        }
    }
}

/// Lowers the initial value of the declared global `global`: a global
/// expression, which must lower to a compile-time constant.
pub open spec fn initializer(s: State, global: NativeValue, init: Option<ExprHandle>) -> (State, Result<
    (),
    Halt,
>) {
    match init {
        None => (s, Ok(())),
        Some(init) => {
            let (s1, lowered) = eval_cached(s, None, init);
            match lowered {
                Err(halt) => (s1, Err(halt)),
                Ok((value, _)) => if !is_constant(s1.code, value) {
                    (
                        s1,
                        Err(
                            failed(
                                Info::NonConstantGlobal,
                                span_at(s1.const_expression_spans, init.0 as int),
                            ),
                        ),
                    )
                } else {
                    (s1.emit(Inst::Initializer { global, value }).0, Ok(()))
                },
            }
        },
    }
}

/// Lowers the global variables from `i` on. Each is declared with its
/// lowered type, given its initial value, and known from then on as a
/// pointer to its type in its address space. Each must have a name.
pub open spec fn globals_from(s: State, variables: Seq<GlobalVariable>, i: int) -> (State, Result<
    (),
    Halt,
>)
    decreases variables.len() - i,
{
    if i < 0 || i >= variables.len() {
        (s, Ok(()))
    } else {
        let variable = variables[i];
        if variable.name.is_none() {
            (s, Err(Halt::Fault(Fault::Unnamed)))
        } else {
            let (s1, lowered) = lower_cached_type(s, undefined_span(), variable.ty);
            match lowered {
                Err(halt) => (s1, Err(halt)),
                Ok(native) => {
                    let (s2, global) = s1.emit(Inst::Global { variable: i as usize, ty: native });
                    let (s3, initialized) = initializer(s2, global, variable.init);
                    match initialized {
                        Err(halt) => (s3, Err(halt)),
                        Ok(_) => {
                            let (s4, handle) = s3.intern(
                                TypeInner::Pointer { base: variable.ty, space: variable.space },
                                s3.type_span(variable.ty),
                            );
                            match handle {
                                Err(halt) => (s4, Err(halt)),
                                Ok(handle) => globals_from(
                                    State { globals: s4.globals.push((global, handle)), ..s4 },
                                    variables,
                                    i + 1,
                                ),
                            }
                        },
                    }
                },
            }
        }
    }
}

/// Lowers a whole module: its global variables, then `functions`.
pub open spec fn generated(s: State, functions: Seq<Function>) -> (State, Result<(), Halt>) {
    let (s1, done) = globals_from(s, s.global_variables, 0);
    match done {
        Err(halt) => (s1, Err(halt)),
        Ok(_) => functions_from(s1, functions, 0),
    }
}

/// The bytes of a file name up to its first dot; the whole name where it
/// has none.
pub open spec fn stem(bytes: Seq<u8>) -> Seq<u8> {
    bytes.subrange(0, first_dot(bytes, 0))
}

/// The position of the first dot in `bytes` at or after `from`; the
/// length of `bytes` if there is none.
pub open spec fn first_dot(bytes: Seq<u8>, from: int) -> int
    decreases bytes.len() - from,
{
    if from < 0 || from >= bytes.len() {
        bytes.len() as int
    } else if bytes[from] == 0x2e {
        from
    } else {
        first_dot(bytes, from + 1)
    }
}

/// The name of the module that comes from the file `file_name`: the
/// file's name up to its first dot.
pub open spec fn module_name(file_name: Seq<char>) -> Seq<char> {
    vstd::utf8::decode_utf8(stem(vstd::utf8::encode_utf8(file_name)))
}

/// What a generator for `src` starts from: nothing emitted, nothing
/// remembered.
pub open spec fn initial(src: SrcModule, source_file: Seq<char>, target: TargetInfo) -> State {
    State {
        name: module_name(source_file),
        source_file,
        types: src.types.items(),
        type_spans: src.types.spans@,
        constants: src.constants.items(),
        constant_spans: src.constants.spans@,
        global_variables: src.global_variables.items(),
        global_variable_spans: src.global_variables.spans@,
        const_expressions: src.const_expressions.items(),
        const_expression_spans: src.const_expressions.spans@,
        layouts: target.layouts@,
        code: Seq::empty(),
        expr_cache: Map::empty(),
        type_cache: Map::empty(),
        pointer_type_cache: Map::empty(),
        globals: Seq::empty(),
        struct_maps: Map::empty(),
    }
}

/// What of a global variable its lowering reads.
struct GlobalParts {
    named: bool,
    ty: TypeHandle,
    init: Option<ExprHandle>,
    space: AddressSpace,
}

impl Module {
    /// Whether the module holds what the generator state `s` holds, and
    /// the functions `functions`.
    pub open spec fn holds(&self, s: State, functions: ItemArena<Function>) -> bool {
        &&& self.name@ == s.name
        &&& self.source_file@ == s.source_file
        &&& self.code@ == s.code
        &&& self.src.types.items() == s.types
        &&& self.src.types.spans@ == s.type_spans
        &&& self.src.constants.items() == s.constants
        &&& self.src.constants.spans@ == s.constant_spans
        &&& self.src.global_variables.items() == s.global_variables
        &&& self.src.global_variables.spans@ == s.global_variable_spans
        &&& self.src.const_expressions.items() == s.const_expressions
        &&& self.src.const_expressions.spans@ == s.const_expression_spans
        &&& self.src.functions == functions
    }
}

impl Generator {
    /// A generator for the shader module `src`, which came from the file
    /// `file_name`, for the target `target_info`. The generated module is
    /// named after the file, without what follows the first dot.
    pub fn new(src: SrcModule, file_name: &str, target_info: TargetInfo) -> (generator: Generator)
        ensures
            generator@ == initial(src, file_name@, target_info),
            generator.module.src.functions == src.functions,
            sound(generator@),
    {
        broadcast use {
            vstd::utf8::encode_utf8_valid_utf8,
            vstd::utf8::encode_utf8_decode_utf8,
            vstd::utf8::is_char_boundary_start_end_of_seq,
            vstd::utf8::is_char_boundary_iff_not_is_continuation_byte,
        };

        let bytes = file_name.as_bytes();
        let mut at: usize = 0;
        while at < bytes.len() && bytes[at] != 0x2e
            invariant
                at <= bytes@.len(),
                first_dot(bytes@, 0) == first_dot(bytes@, at as int),
            decreases bytes@.len() - at,
        {
            at += 1;
        }
        proof {
            if at < bytes@.len() {
                assert(!vstd::utf8::is_continuation_byte(bytes@[at as int]));
            }
        }
        let name = file_name.split_at(at).0.to_owned();
        let generator = Generator {
            module: Module { src, name, source_file: file_name.to_owned(), code: Vec::new() },
            target_info,
            expr_cache: HashMap::new(),
            type_cache: HashMap::new(),
            pointer_type_cache: HashMap::new(),
            globals: Vec::new(),
            struct_maps: HashMap::new(),
        };
        assert(generator@.struct_maps =~= Map::empty());
        generator
    }

    fn eval_params(&mut self, arguments: &Vec<FunctionArgument>, i: usize) -> (lowered: Result<
        Members,
        Halt,
    >)
        ensures
            final(self).module.src.functions == old(self).module.src.functions,
            (final(self)@, lowered) == lower_params(old(self)@, arguments@, i as int),
        decreases arguments@.len() - i,
    {
        if i >= arguments.len() {
            return Ok(Members::End);
        }
        let native = self.eval_cached_type(Span::undefined(), arguments[i].ty)?;
        let tail = self.eval_params(arguments, i + 1)?;
        Ok(Members::Then(Box::new(native), Box::new(tail)))
    }

    /// Declares the function with the index `index` and opens its entry
    /// block. The state of the function starts without local variables
    /// and parameters.
    pub fn generate_llvm_function<'a>(&mut self, index: usize, function: &'a Function) -> (declared:
        Result<(NativeValue, FunctionState<'a>), Halt>)
        ensures
            final(self).module.src.functions == old(self).module.src.functions,
            final(self)@ == declare_function(old(self)@, index, *function).0,
            match declared {
                Ok((value, state)) => {
                    &&& declare_function(old(self)@, index, *function).1 == Ok::<
                        NativeValue,
                        Halt,
                    >(value)
                    &&& state.src_function == function
                    &&& state.locals@ == Seq::<Typed>::empty()
                    &&& state.params@ == Seq::<Typed>::empty()
                },
                Err(halt) => declare_function(old(self)@, index, *function).1 == Err::<
                    NativeValue,
                    Halt,
                >(halt),
            },
    {
        let params = self.eval_params(&function.arguments, 0)?;
        let result = match &function.result {
            Some(result) => self.eval_cached_type(Span::undefined(), result.ty)?,
            None => NativeType::Void,
        };
        if function.name.is_none() {
            return Err(Halt::Fault(Fault::Unnamed));
        }
        let declared = self.emit(
            Inst::Function {
                function: index,
                ty: NativeType::Function { result: Box::new(result), params },
            },
        );
        self.emit(Inst::EntryBlock { function: declared });
        Ok((declared, FunctionState { src_function: function, locals: Vec::new(), params: Vec::new() }))
    }

    /// Lowers the local variables of a function.
    pub fn generate_locals(&mut self, state: &mut FunctionState) -> (done: Result<(), Halt>)
        ensures
            final(self).module.src.functions == old(self).module.src.functions,
            final(self)@ == locals_from(
                old(self)@,
                *old(state).src_function,
                old(state).params@,
                old(state).locals@,
                0,
            ).0,
            final(state).src_function == old(state).src_function,
            final(state).params == old(state).params,
            match done {
                Ok(_) => locals_from(
                    old(self)@,
                    *old(state).src_function,
                    old(state).params@,
                    old(state).locals@,
                    0,
                ).1 == Ok::<Seq<Typed>, Halt>(final(state).locals@),
                Err(halt) => locals_from(
                    old(self)@,
                    *old(state).src_function,
                    old(state).params@,
                    old(state).locals@,
                    0,
                ).1 == Err::<Seq<Typed>, Halt>(halt),
            },
    {
        let function = state.src_function;
        let mut i: usize = 0;
        while i < function.local_variables.len()
            invariant
                self.module.src.functions == old(self).module.src.functions,
                state.src_function == old(state).src_function,
                function == state.src_function,
                state.params == old(state).params,
                locals_from(self@, *function, state.params@, state.locals@, i as int)
                    == locals_from(
                    old(self)@,
                    *function,
                    old(state).params@,
                    old(state).locals@,
                    0,
                ),
            decreases function.local_variables.items().len() - i,
        {
            let (ty, init) = match function.local_variables.try_get(i) {
                Some(variable) => (variable.ty, variable.init),
                None => vstd::pervasive::unreached(),
            };
            let ty_span = self.module.src.types.get_span(ty);
            let native = self.eval_cached_pointer_type(ty_span, ty)?;
            let pointer = self.emit(Inst::Alloca { ty: native });
            if let Some(init) = init {
                let span = function.local_variables.get_span(i);
                self.build_store(Some(&*state), span, pointer, init)?;
            }
            let ty_span = self.module.src.types.get_span(ty);
            let handle = self.insert_type(
                TypeInner::Pointer { base: ty, space: AddressSpace::Function },
                ty_span,
            )?;
            state.locals.push((pointer, handle));
            i += 1;
        }
        Ok(())
    }

    /// Binds the parameters of the declared function `declared`.
    pub fn generate_params(&mut self, declared: NativeValue, state: &mut FunctionState) -> (done:
        Result<(), Halt>)
        ensures
            final(self).module.src.functions == old(self).module.src.functions,
            final(self)@ == params_from(
                old(self)@,
                declared,
                old(state).src_function.arguments@,
                old(state).params@,
                0,
            ).0,
            final(state).src_function == old(state).src_function,
            final(state).locals == old(state).locals,
            match done {
                Ok(_) => params_from(
                    old(self)@,
                    declared,
                    old(state).src_function.arguments@,
                    old(state).params@,
                    0,
                ).1 == Ok::<Seq<Typed>, Halt>(final(state).params@),
                Err(halt) => params_from(
                    old(self)@,
                    declared,
                    old(state).src_function.arguments@,
                    old(state).params@,
                    0,
                ).1 == Err::<Seq<Typed>, Halt>(halt),
            },
    {
        let function = state.src_function;
        let mut i: usize = 0;
        while i < function.arguments.len()
            invariant
                self.module.src.functions == old(self).module.src.functions,
                state.src_function == old(state).src_function,
                function == state.src_function,
                state.locals == old(state).locals,
                params_from(self@, declared, function.arguments@, state.params@, i as int)
                    == params_from(
                    old(self)@,
                    declared,
                    function.arguments@,
                    old(state).params@,
                    0,
                ),
            decreases function.arguments@.len() - i,
        {
            if i > u32::MAX as usize {
                return Err(Halt::Fault(Fault::Arithmetic));
            }
            let param = self.emit(Inst::Parameter { function: declared, index: i as u32 });
            state.params.push((param, function.arguments[i].ty));
            i += 1;
        }
        Ok(())
    }

    /// Lowers the function with the index `index`.
    pub fn generate_function(&mut self, index: usize, function: &Function) -> (done: Result<
        (),
        Halt,
    >)
        ensures
            final(self).module.src.functions == old(self).module.src.functions,
            (final(self)@, done) == self::function(old(self)@, index, *function),
    {
        self.expr_cache.clear();
        let (declared, mut state) = self.generate_llvm_function(index, function)?;
        self.generate_locals(&mut state)?;
        self.generate_params(declared, &mut state)?;
        self.emit_body(&state)
    }

    fn global_parts(&self) -> (parts: Vec<GlobalParts>)
        ensures
            parts@.len() == self@.global_variables.len(),
            forall|i: int|
                0 <= i < parts@.len() ==> {
                    &&& (#[trigger] parts@[i]).named == self@.global_variables[i].name.is_some()
                    &&& parts@[i].ty == self@.global_variables[i].ty
                    &&& parts@[i].init == self@.global_variables[i].init
                    &&& parts@[i].space == self@.global_variables[i].space
                },
    {
        let variables = &self.module.src.global_variables;
        let mut parts: Vec<GlobalParts> = Vec::new();
        let mut i: usize = 0;
        while i < variables.len()
            invariant
                i <= variables.items().len(),
                parts@.len() == i,
                variables.items() == self@.global_variables,
                forall|j: int|
                    0 <= j < i ==> {
                        &&& (#[trigger] parts@[j]).named == variables.items()[j].name.is_some()
                        &&& parts@[j].ty == variables.items()[j].ty
                        &&& parts@[j].init == variables.items()[j].init
                        &&& parts@[j].space == variables.items()[j].space
                    },
            decreases variables.items().len() - i,
        {
            let variable = match variables.try_get(i) {
                Some(variable) => variable,
                None => vstd::pervasive::unreached(),
            };
            parts.push(
                GlobalParts {
                    named: variable.name.is_some(),
                    ty: variable.ty,
                    init: variable.init,
                    space: variable.space,
                },
            );
            i += 1;
        }
        parts
    }

    fn build_initializer(&mut self, global: NativeValue, init: Option<ExprHandle>) -> (done: Result<
        (),
        Halt,
    >)
        ensures
            final(self).module.src.functions == old(self).module.src.functions,
            (final(self)@, done) == initializer(old(self)@, global, init),
    {
        match init {
            None => Ok(()),
            Some(init) => {
                let (value, _) = self.eval_cached_expr(None, init)?;
                if !self.is_constant(value) {
                    return Err(
                        fail(
                            Info::NonConstantGlobal,
                            self.module.src.const_expressions.get_span(init.0),
                        ),
                    );
                }
                self.emit(Inst::Initializer { global, value });
                Ok(())
            },
        }
    }

    /// Lowers the module's global variables.
    pub fn generate_globals(&mut self) -> (done: Result<(), Halt>)
        ensures
            final(self).module.src.functions == old(self).module.src.functions,
            (final(self)@, done) == globals_from(old(self)@, old(self)@.global_variables, 0),
    {
        let parts = self.global_parts();
        let ghost variables = self@.global_variables;
        let mut i: usize = 0;
        while i < parts.len()
            invariant
                self.module.src.functions == old(self).module.src.functions,
                parts@.len() == variables.len(),
                variables == old(self)@.global_variables,
                forall|j: int|
                    0 <= j < parts@.len() ==> {
                        &&& (#[trigger] parts@[j]).named == variables[j].name.is_some()
                        &&& parts@[j].ty == variables[j].ty
                        &&& parts@[j].init == variables[j].init
                        &&& parts@[j].space == variables[j].space
                    },
                globals_from(self@, variables, i as int) == globals_from(
                    old(self)@,
                    variables,
                    0,
                ),
            decreases parts@.len() - i,
        {
            if !parts[i].named {
                return Err(Halt::Fault(Fault::Unnamed));
            }
            let ty: TypeHandle = parts[i].ty;
            let native = self.eval_cached_type(Span::undefined(), ty)?;
            let global = self.emit(Inst::Global { variable: i, ty: native });
            self.build_initializer(global, parts[i].init)?;
            let ty_span = self.module.src.types.get_span(ty);
            let handle = self.insert_type(
                TypeInner::Pointer { base: ty, space: parts[i].space },
                ty_span,
            )?;
            self.globals.push((global, handle));
            i += 1;
        }
        Ok(())
    }

    /// Generates the module, whatever the shader module holds: a module
    /// that breaks the rules of well-formed modules, or a native type that
    /// the target description does not know, stops the generation with
    /// the fault or with the type. The module that comes out holds the
    /// shader as it went in, but for the types that lowering added; and
    /// where the generator started from a sound state, as every new
    /// generator does, its code refers only backwards.
    pub fn try_generate(self) -> (module: Result<Module, Halt>)
        ensures
            grows(self@, generated(self@, self.module.src.functions.items()).0),
            sound(self@) ==> sound(generated(self@, self.module.src.functions.items()).0),
            match module {
                Ok(module) => generated(self@, self.module.src.functions.items()).1.is_ok()
                    && module.holds(
                    generated(self@, self.module.src.functions.items()).0,
                    self.module.src.functions,
                ),
                Err(halt) => generated(self@, self.module.src.functions.items()).1 == Err::<
                    (),
                    Halt,
                >(halt),
            },
    {
        proof {
            generation_grows(self@, self.module.src.functions.items());
            if sound(self@) {
                generation_sound(self@, self.module.src.functions.items());
            }
        }
        let mut generator = self;
        let mut functions: ItemArena<Function> = ItemArena::new();
        core::mem::swap(&mut functions, &mut generator.module.src.functions);
        generator.generate_globals()?;
        let ghost start = generator@;
        let mut i: usize = 0;
        while i < functions.len()
            invariant
                functions == self.module.src.functions,
                grows(self@, generated(self@, self.module.src.functions.items()).0),
                sound(self@) ==> sound(generated(self@, self.module.src.functions.items()).0),
                globals_from(self@, self@.global_variables, 0) == (start, Ok::<(), Halt>(())),
                functions_from(generator@, functions.items(), i as int) == functions_from(
                    start,
                    functions.items(),
                    0,
                ),
            decreases functions.items().len() - i,
        {
            let function = match functions.try_get(i) {
                Some(function) => function,
                None => vstd::pervasive::unreached(),
            };
            generator.generate_function(i, function)?;
            i += 1;
        }
        core::mem::swap(&mut functions, &mut generator.module.src.functions);
        Ok(generator.module)
    }

    /// Whether generation comes to an end of its own: with a module, or
    /// with an error in the shader.
    pub open spec fn can_generate(&self) -> bool {
        match generated(self@, self.module.src.functions.items()).1 {
            Ok(_) => true,
            Err(Halt::Error(_)) => true,
            Err(_) => false,
        }
    }

    /// Generates the module.
    pub fn generate(self) -> (module: Result<Module, Error>)
        requires
            self.can_generate(),
        ensures
            grows(self@, generated(self@, self.module.src.functions.items()).0),
            sound(self@) ==> sound(generated(self@, self.module.src.functions.items()).0),
            match module {
                Ok(module) => generated(self@, self.module.src.functions.items()).1.is_ok()
                    && module.holds(
                    generated(self@, self.module.src.functions.items()).0,
                    self.module.src.functions,
                ),
                Err(error) => generated(self@, self.module.src.functions.items()).1 == Err::<
                    (),
                    Halt,
                >(Halt::Error(error)),
            },
    {
        match self.try_generate() {
            Ok(module) => Ok(module),
            Err(Halt::Error(error)) => Err(error),
            Err(_) => vstd::pervasive::unreached(),
        }
    }
}

} // verus!
