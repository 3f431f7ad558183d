use shader_lower::codegen::error::{Error, Fault, Halt, Info};
use shader_lower::codegen::expressions::location::FunctionState;
use shader_lower::codegen::native::{Inst, NativeType, NativeValue};
use shader_lower::codegen::target::TargetInfo;
use shader_lower::codegen::Generator;
use shader_lower::ir::{
    AddressSpace, ItemArena, Block, ExprHandle, Expression, Function, FunctionResult, Literal,
    OtherStatement, Scalar, ScalarKind, Span, SrcModule, Statement, Type, TypeHandle, TypeInner,
    VectorSize,
};

const F32: Scalar = Scalar { kind: ScalarKind::Float, width: 4 };
const U32: Scalar = Scalar { kind: ScalarKind::Uint, width: 4 };

fn generator_for(types: Vec<TypeInner>, target: TargetInfo) -> Generator {
    let mut src = SrcModule::new();
    for inner in types {
        src.types.insert(Type { name: None, inner }, Span::undefined()).unwrap();
    }
    Generator::new(src, "statements.wgsl", target)
}

fn function_of(result: Option<usize>, exprs: Vec<Expression>) -> Function {
    let mut expressions = ItemArena::new();
    for (i, expr) in exprs.into_iter().enumerate() {
        expressions.append(expr, Span::new(i as u32, i as u32 + 1));
    }
    Function {
        name: Some("main".to_string()),
        arguments: Vec::new(),
        result: result.map(|ty| FunctionResult { ty: TypeHandle(ty) }),
        local_variables: ItemArena::new(),
        expressions,
        body: Block { body: Vec::new(), span_info: Vec::new() },
    }
}

fn state(function: &Function) -> FunctionState<'_> {
    FunctionState { src_function: function, locals: Vec::new(), params: Vec::new() }
}

fn insts(generator: &Generator) -> Vec<&Inst> {
    generator.module.code.iter().map(|emitted| &emitted.inst).collect()
}

fn wrong_return(expected: Option<usize>, found: Option<usize>, span: Span) -> Result<(), Halt> {
    Err(Halt::Error(Error {
        info: Info::IncorrectReturnType {
            expected: expected.map(TypeHandle),
            found: found.map(TypeHandle),
        },
        span,
    }))
}

fn float(value: f32) -> Expression {
    Expression::Literal(Literal::F32(value.to_bits()))
}

#[test]
fn return_of_a_value_from_a_function_without_result_is_refused() {
    let mut generator = generator_for(vec![TypeInner::Scalar(F32)], TargetInfo::new());
    let function = function_of(None, vec![float(1.0)]);
    let span = Span::new(70, 80);
    let done = generator.emit_statement(
        span,
        &state(&function),
        &Statement::Return { value: Some(ExprHandle(0)) },
    );
    assert_eq!(done, wrong_return(None, Some(0), span));
    assert_eq!(insts(&generator), vec![&Inst::ConstF32(1.0f32.to_bits())]);
}

#[test]
fn return_without_a_value_from_a_function_with_result_is_refused() {
    let mut generator = generator_for(vec![TypeInner::Scalar(F32)], TargetInfo::new());
    let function = function_of(Some(0), vec![float(1.0)]);
    let span = Span::new(70, 80);
    let done = generator.emit_statement(span, &state(&function), &Statement::Return { value: None });
    assert_eq!(done, wrong_return(Some(0), None, span));
    assert!(generator.module.code.is_empty());
}

#[test]
fn return_of_another_type_is_refused_at_the_value() {
    let mut generator =
        generator_for(vec![TypeInner::Scalar(F32), TypeInner::Scalar(U32)], TargetInfo::new());
    let function = function_of(Some(0), vec![float(1.0), Expression::Literal(Literal::U32(1))]);
    let done = generator.emit_statement(
        Span::new(70, 80),
        &state(&function),
        &Statement::Return { value: Some(ExprHandle(1)) },
    );
    assert_eq!(done, wrong_return(Some(0), Some(1), Span::new(1, 2)));
    assert_eq!(insts(&generator), vec![&Inst::ConstU32(1)]);
}

#[test]
fn matching_returns_are_emitted() {
    let mut generator = generator_for(vec![TypeInner::Scalar(F32)], TargetInfo::new());
    let function = function_of(Some(0), vec![float(1.0)]);
    let done = generator.emit_statement(
        Span::new(70, 80),
        &state(&function),
        &Statement::Return { value: Some(ExprHandle(0)) },
    );
    assert_eq!(done, Ok(()));
    assert_eq!(
        insts(&generator),
        vec![&Inst::ConstF32(1.0f32.to_bits()), &Inst::Return { value: NativeValue(0) }]
    );

    let mut generator = generator_for(vec![], TargetInfo::new());
    let function = function_of(None, vec![]);
    let done =
        generator.emit_statement(Span::new(70, 80), &state(&function), &Statement::Return { value: None });
    assert_eq!(done, Ok(()));
    assert_eq!(insts(&generator), vec![&Inst::ReturnVoid]);
    assert!(!generator.module.code[0].constant);
}

#[test]
fn emit_lowers_its_range_in_order_and_once() {
    let mut generator = generator_for(vec![], TargetInfo::new());
    let function = function_of(None, vec![float(1.0), float(2.0), float(3.0), float(4.0)]);
    let location = state(&function);
    let span = Span::undefined();
    assert_eq!(generator.emit_statement(span, &location, &Statement::Emit { start: 1, end: 3 }), Ok(()));
    assert_eq!(
        insts(&generator),
        vec![&Inst::ConstF32(2.0f32.to_bits()), &Inst::ConstF32(3.0f32.to_bits())]
    );
    assert_eq!(generator.emit_statement(span, &location, &Statement::Emit { start: 0, end: 3 }), Ok(()));
    assert_eq!(generator.module.code.len(), 3);
    assert_eq!(generator.module.code[2].inst, Inst::ConstF32(1.0f32.to_bits()));
    assert_eq!(generator.emit_statement(span, &location, &Statement::Emit { start: 3, end: 3 }), Ok(()));
    assert_eq!(generator.emit_statement(span, &location, &Statement::Emit { start: 4, end: 2 }), Ok(()));
    assert_eq!(generator.module.code.len(), 3);
    assert_eq!(generator.expr_cache.len(), 3);
}

#[test]
fn block_lowers_its_statements_under_its_own_span() {
    let mut generator = generator_for(vec![TypeInner::Scalar(F32)], TargetInfo::new());
    let function = function_of(Some(0), vec![float(1.0)]);
    let inner = Block {
        body: vec![Statement::Emit { start: 0, end: 1 }, Statement::Return { value: None }],
        span_info: vec![Span::new(1, 2), Span::new(3, 4)],
    };
    let outer = Statement::Block(Block {
        body: vec![Statement::Block(inner), Statement::Return { value: Some(ExprHandle(0)) }],
        span_info: vec![Span::new(5, 6), Span::new(7, 8)],
    });
    let span = Span::new(70, 80);
    let done = generator.emit_statement(span, &state(&function), &outer);
    assert_eq!(done, wrong_return(Some(0), None, span));
    assert_eq!(insts(&generator), vec![&Inst::ConstF32(1.0f32.to_bits())]);
}

#[test]
fn store_writes_through_the_lowered_pointer() {
    let mut generator = generator_for(
        vec![
            TypeInner::Scalar(F32),
            TypeInner::Pointer { base: TypeHandle(0), space: AddressSpace::Function },
        ],
        TargetInfo::new(),
    );
    let function = function_of(None, vec![Expression::LocalVariable(0), float(2.0)]);
    let location = FunctionState {
        src_function: &function,
        locals: vec![(NativeValue(40), TypeHandle(1))],
        params: Vec::new(),
    };
    let done = generator.emit_statement(
        Span::undefined(),
        &location,
        &Statement::Store { pointer: ExprHandle(0), value: ExprHandle(1) },
    );
    assert_eq!(done, Ok(()));
    assert_eq!(
        insts(&generator),
        vec![
            &Inst::ConstF32(2.0f32.to_bits()),
            &Inst::Store { value: NativeValue(0), pointer: NativeValue(40) },
        ]
    );
}

#[test]
fn store_of_a_matrix_needs_the_alignment_of_its_columns() {
    let types = vec![
        TypeInner::Matrix { columns: VectorSize::Bi, rows: VectorSize::Bi, scalar: F32 },
        TypeInner::Pointer { base: TypeHandle(0), space: AddressSpace::Function },
    ];
    let function = function_of(None, vec![Expression::LocalVariable(0), Expression::ZeroValue(TypeHandle(0))]);
    let store = Statement::Store { pointer: ExprHandle(0), value: ExprHandle(1) };

    let mut generator = generator_for(types.clone(), TargetInfo::new());
    let location = FunctionState {
        src_function: &function,
        locals: vec![(NativeValue(40), TypeHandle(1))],
        params: Vec::new(),
    };
    assert_eq!(
        generator.emit_statement(Span::undefined(), &location, &store),
        Err(Halt::UnknownLayout(NativeType::vector(NativeType::Float, 2)))
    );

    let mut target = TargetInfo::new();
    target.describe(NativeType::vector(NativeType::Float, 2), 8, 8);
    let mut generator = generator_for(types, target);
    assert_eq!(generator.emit_statement(Span::undefined(), &location, &store), Ok(()));
    assert_eq!(
        generator.module.code[5].inst,
        Inst::ColumnMajorStore {
            value: NativeValue(0),
            pointer: NativeValue(40),
            stride: NativeValue(1),
            volatile: NativeValue(2),
            rows: NativeValue(3),
            columns: NativeValue(4),
        }
    );
    assert_eq!(generator.module.code[1].inst, Inst::ConstU64(2));
}

#[test]
fn body_is_lowered_to_its_end_with_the_span_of_each_statement() {
    let mut generator = generator_for(vec![TypeInner::Scalar(F32)], TargetInfo::new());
    let mut function = function_of(None, vec![float(1.0)]);
    function.body = Block {
        body: vec![
            Statement::Return { value: None },
            Statement::Emit { start: 0, end: 1 },
            Statement::Return { value: Some(ExprHandle(0)) },
            Statement::Return { value: None },
        ],
        span_info: vec![Span::new(1, 2), Span::new(3, 4), Span::new(5, 6)],
    };
    let done = generator.emit_body(&state(&function));
    assert_eq!(done, wrong_return(None, Some(0), Span::new(5, 6)));
    assert_eq!(insts(&generator), vec![&Inst::ReturnVoid, &Inst::ConstF32(1.0f32.to_bits())]);
}

#[test]
fn statement_that_is_not_lowered_faults_when_reached() {
    let mut generator = generator_for(vec![TypeInner::Scalar(F32)], TargetInfo::new());
    let mut function = function_of(Some(0), vec![float(1.0)]);
    function.body = Block {
        body: vec![
            Statement::Emit { start: 0, end: 1 },
            Statement::Other(OtherStatement::Loop),
            Statement::Return { value: Some(ExprHandle(0)) },
        ],
        span_info: Vec::new(),
    };
    assert_eq!(generator.emit_body(&state(&function)), Err(Halt::Fault(Fault::NotImplemented)));
    assert_eq!(generator.module.code.len(), 1);

    let mut generator = generator_for(vec![TypeInner::Scalar(F32)], TargetInfo::new());
    function.body = Block {
        body: vec![Statement::Return { value: None }, Statement::Other(OtherStatement::Kill)],
        span_info: Vec::new(),
    };
    assert_eq!(
        generator.emit_body(&state(&function)),
        wrong_return(Some(0), None, Span::undefined())
    );
}
