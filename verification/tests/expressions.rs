use shader_lower::codegen::error::{Error, Fault, Halt, Info};
use shader_lower::codegen::expressions::binary::select_instruction;
use shader_lower::codegen::expressions::location::FunctionState;
use shader_lower::codegen::native::{Inst, NativeType, NativeValue, Opcode};
use shader_lower::codegen::target::TargetInfo;
use shader_lower::codegen::Generator;
use shader_lower::ir::{
    AddressSpace, ItemArena, ArraySize, BinaryOperator, Block, Constant, ExprHandle, Expression,
    Function, Literal, OtherExpression, Scalar, ScalarKind, Span, SrcModule, StructMember,
    SwizzleComponent, Type, TypeHandle, TypeInner, VectorSize,
};

const F32: Scalar = Scalar { kind: ScalarKind::Float, width: 4 };
const U32: Scalar = Scalar { kind: ScalarKind::Uint, width: 4 };
const I32: Scalar = Scalar { kind: ScalarKind::Sint, width: 4 };
const BOOL: Scalar = Scalar { kind: ScalarKind::Bool, width: 1 };

fn module_with(types: Vec<TypeInner>) -> SrcModule {
    let mut src = SrcModule::new();
    for (i, inner) in types.into_iter().enumerate() {
        let handle = src.types.insert(Type { name: None, inner }, Span::new(100 + i as u32, 200));
        assert_eq!(handle, Some(TypeHandle(i)));
    }
    src
}

fn function_of(exprs: Vec<Expression>) -> Function {
    let mut expressions = ItemArena::new();
    for (i, expr) in exprs.into_iter().enumerate() {
        expressions.append(expr, Span::new(i as u32, i as u32 + 1));
    }
    Function {
        name: Some("main".to_string()),
        arguments: Vec::new(),
        result: None,
        local_variables: ItemArena::new(),
        expressions,
        body: Block { body: Vec::new(), span_info: Vec::new() },
    }
}

fn generator_for(types: Vec<TypeInner>, target: TargetInfo) -> Generator {
    Generator::new(module_with(types), "expressions.wgsl", target)
}

fn state(function: &Function) -> FunctionState<'_> {
    FunctionState { src_function: function, locals: Vec::new(), params: Vec::new() }
}

fn insts(generator: &Generator) -> Vec<&Inst> {
    generator.module.code.iter().map(|emitted| &emitted.inst).collect()
}

fn error(info: Info, span: Span) -> Halt {
    Halt::Error(Error { info, span })
}

fn type_at(generator: &Generator, handle: usize) -> TypeInner {
    generator.module.src.types.try_get(TypeHandle(handle)).unwrap().inner.clone()
}

fn float(value: f32) -> Expression {
    Expression::Literal(Literal::F32(value.to_bits()))
}

fn vector(element: NativeType, len: u32) -> NativeType {
    NativeType::vector(element, len)
}

fn v(index: usize) -> NativeValue {
    NativeValue(index)
}

fn e(index: usize) -> ExprHandle {
    ExprHandle(index)
}

fn t(index: usize) -> TypeHandle {
    TypeHandle(index)
}

#[test]
fn literals_lower_to_constants_of_their_type() {
    let cases = vec![
        (Literal::F64(2.5f64.to_bits()), Inst::ConstF64(2.5f64.to_bits()), Scalar { kind: ScalarKind::Float, width: 8 }),
        (Literal::F32(1.5f32.to_bits()), Inst::ConstF32(1.5f32.to_bits()), F32),
        (Literal::U32(7), Inst::ConstU32(7), U32),
        (Literal::I32(-7), Inst::ConstI32(-7), I32),
        (Literal::I64(-9), Inst::ConstI64(-9), Scalar { kind: ScalarKind::Sint, width: 8 }),
        (Literal::Bool(true), Inst::ConstBool(true), BOOL),
    ];
    for (literal, inst, scalar) in cases {
        let mut generator = generator_for(vec![], TargetInfo::new());
        let lowered = generator.build_literal(Span::new(1, 2), literal);
        assert_eq!(lowered, Ok((v(0), t(0))));
        assert_eq!(insts(&generator), vec![&inst]);
        assert!(generator.module.code[0].constant);
        assert_eq!(type_at(&generator, 0), TypeInner::Scalar(scalar));
        assert_eq!(generator.module.src.types.get_span(t(0)), Span::undefined());
    }
}

#[test]
fn literal_of_a_known_type_takes_its_handle() {
    let mut generator = generator_for(vec![TypeInner::Scalar(U32), TypeInner::Scalar(F32)], TargetInfo::new());
    assert_eq!(generator.build_literal(Span::undefined(), Literal::F32(0)), Ok((v(0), t(1))));
    assert_eq!(generator.build_literal(Span::undefined(), Literal::U32(3)), Ok((v(1), t(0))));
    assert_eq!(generator.module.src.types.len(), 2);
}

#[test]
fn abstract_literals_are_illegal() {
    let mut generator = generator_for(vec![], TargetInfo::new());
    let span = Span::new(5, 9);
    for literal in [Literal::AbstractInt(4), Literal::AbstractFloat(1.0f64.to_bits())] {
        assert_eq!(generator.build_literal(span, literal), Err(error(Info::IllegalLiteral(literal), span)));
    }
    assert!(generator.module.code.is_empty());
    assert_eq!(generator.module.src.types.len(), 0);
}

#[test]
fn zero_value_is_the_null_of_the_lowered_type() {
    let mut generator = generator_for(
        vec![TypeInner::Vector { size: VectorSize::Tri, scalar: I32 }],
        TargetInfo::new(),
    );
    let function = function_of(vec![Expression::ZeroValue(t(0))]);
    let lowered = generator.eval_cached_expr(Some(&state(&function)), e(0));
    assert_eq!(lowered, Ok((v(0), t(0))));
    assert_eq!(insts(&generator), vec![&Inst::ConstNull(vector(NativeType::Int(32), 3))]);
    assert!(generator.module.code[0].constant);
}

#[test]
fn second_lowering_hands_out_the_first_result() {
    let mut generator = generator_for(vec![TypeInner::Scalar(F32)], TargetInfo::new());
    let function = function_of(vec![
        float(1.0),
        float(2.0),
        Expression::Binary { op: BinaryOperator::Add, left: e(0), right: e(1) },
        Expression::Binary { op: BinaryOperator::Multiply, left: e(2), right: e(2) },
    ]);
    let location = state(&function);
    let first = generator.eval_cached_expr(Some(&location), e(2));
    assert_eq!(first, Ok((v(2), t(0))));
    let emitted = generator.module.code.len();
    assert_eq!(emitted, 3);
    let second = generator.eval_cached_expr(Some(&location), e(2));
    assert_eq!(second, first);
    assert_eq!(generator.module.code.len(), emitted);
    assert_eq!(generator.expr_cache.len(), 3);
    let product = generator.eval_cached_expr(Some(&location), e(3));
    assert_eq!(product, Ok((v(3), t(0))));
    assert_eq!(
        insts(&generator),
        vec![
            &Inst::ConstF32(1.0f32.to_bits()),
            &Inst::ConstF32(2.0f32.to_bits()),
            &Inst::Binary { op: Opcode::FAdd, lhs: v(0), rhs: v(1) },
            &Inst::Binary { op: Opcode::FMul, lhs: v(2), rhs: v(2) },
        ]
    );
}

#[test]
fn uncached_lowering_emits_again() {
    let mut generator = generator_for(vec![], TargetInfo::new());
    let function = function_of(vec![float(1.0)]);
    let location = state(&function);
    assert_eq!(generator.eval_expr(Some(&location), e(0)), Ok((v(0), t(0))));
    assert_eq!(generator.eval_expr(Some(&location), e(0)), Ok((v(1), t(0))));
    assert!(generator.expr_cache.is_empty());
}

#[test]
fn constants_are_lowered_anew_and_leave_no_trace() {
    let mut src = module_with(vec![
        TypeInner::Scalar(F32),
        TypeInner::Vector { size: VectorSize::Bi, scalar: F32 },
    ]);
    src.const_expressions.append(float(1.0), Span::new(50, 51));
    src.const_expressions.append(float(2.0), Span::new(52, 53));
    src.const_expressions.append(
        Expression::Compose { ty: t(1), components: vec![e(0), e(1)] },
        Span::new(54, 55),
    );
    src.constants.append(Constant { name: None, ty: t(1), init: e(2) }, Span::new(56, 57));
    let mut generator = Generator::new(src, "constants.wgsl", TargetInfo::new());
    let function = function_of(vec![Expression::Constant(0), Expression::Constant(0)]);
    let location = state(&function);
    assert_eq!(generator.eval_cached_expr(Some(&location), e(0)), Ok((v(6), t(1))));
    assert_eq!(generator.module.code.len(), 7);
    assert_eq!(generator.expr_cache.len(), 1);
    assert_eq!(generator.expr_cache[&0], (v(6), t(1)));
    assert_eq!(generator.eval_cached_expr(Some(&location), e(1)), Ok((v(13), t(1))));
    assert_eq!(generator.module.code.len(), 14);
    assert_eq!(generator.expr_cache.len(), 2);
    assert!(generator.module.code[13].constant);
}

#[test]
fn global_expressions_are_never_remembered() {
    let mut src = module_with(vec![]);
    src.const_expressions.append(float(1.0), Span::new(50, 51));
    let mut generator = Generator::new(src, "globals.wgsl", TargetInfo::new());
    assert_eq!(generator.eval_cached_expr(None, e(0)), Ok((v(0), t(0))));
    assert_eq!(generator.eval_cached_expr(None, e(0)), Ok((v(1), t(0))));
    assert!(generator.expr_cache.is_empty());
}

#[test]
fn vector_is_composed_lane_by_lane() {
    let mut generator = generator_for(
        vec![TypeInner::Scalar(F32), TypeInner::Vector { size: VectorSize::Bi, scalar: F32 }],
        TargetInfo::new(),
    );
    let function = function_of(vec![
        float(1.0),
        float(2.0),
        Expression::Compose { ty: t(1), components: vec![e(0), e(1)] },
    ]);
    assert_eq!(generator.eval_cached_expr(Some(&state(&function)), e(2)), Ok((v(6), t(1))));
    assert_eq!(
        insts(&generator),
        vec![
            &Inst::Undef(vector(NativeType::Float, 2)),
            &Inst::ConstF32(1.0f32.to_bits()),
            &Inst::ConstU64(0),
            &Inst::InsertElement { vector: v(0), element: v(1), index: v(2) },
            &Inst::ConstF32(2.0f32.to_bits()),
            &Inst::ConstU64(1),
            &Inst::InsertElement { vector: v(3), element: v(4), index: v(5) },
        ]
    );
}

#[test]
fn array_is_composed_element_by_element() {
    let mut generator = generator_for(
        vec![
            TypeInner::Scalar(U32),
            TypeInner::Array { base: t(0), size: ArraySize::Constant(2), stride: 4 },
        ],
        TargetInfo::new(),
    );
    let function = function_of(vec![
        Expression::Literal(Literal::U32(8)),
        Expression::Compose { ty: t(1), components: vec![e(0), e(0)] },
    ]);
    assert_eq!(generator.eval_cached_expr(Some(&state(&function)), e(1)), Ok((v(3), t(1))));
    assert_eq!(
        insts(&generator),
        vec![
            &Inst::Undef(NativeType::array(NativeType::Int(32), 2)),
            &Inst::ConstU32(8),
            &Inst::InsertValue { aggregate: v(0), element: v(1), index: 0 },
            &Inst::InsertValue { aggregate: v(2), element: v(1), index: 1 },
        ]
    );
}

#[test]
fn matrix_is_composed_of_vectors_only() {
    let types = vec![
        TypeInner::Scalar(F32),
        TypeInner::Vector { size: VectorSize::Bi, scalar: F32 },
        TypeInner::Matrix { columns: VectorSize::Bi, rows: VectorSize::Bi, scalar: F32 },
    ];
    let mut generator = generator_for(types.clone(), TargetInfo::new());
    let function = function_of(vec![
        Expression::ZeroValue(t(1)),
        Expression::Compose { ty: t(2), components: vec![e(0), e(0)] },
    ]);
    assert_eq!(generator.eval_cached_expr(Some(&state(&function)), e(1)), Ok((v(3), t(2))));
    assert_eq!(
        insts(&generator),
        vec![
            &Inst::Undef(vector(NativeType::Float, 4)),
            &Inst::ConstNull(vector(NativeType::Float, 2)),
            &Inst::InsertValue { aggregate: v(0), element: v(1), index: 0 },
            &Inst::InsertValue { aggregate: v(2), element: v(1), index: 1 },
        ]
    );

    let mut generator = generator_for(types, TargetInfo::new());
    let function = function_of(vec![
        Expression::ZeroValue(t(1)),
        float(1.0),
        Expression::Compose { ty: t(2), components: vec![e(0), e(1)] },
    ]);
    assert_eq!(
        generator.eval_cached_expr(Some(&state(&function)), e(2)),
        Err(error(Info::InvalidComponent(t(0)), Span::new(2, 3)))
    );
}

#[test]
fn scalar_cannot_be_composed() {
    let mut generator = generator_for(vec![TypeInner::Scalar(F32)], TargetInfo::new());
    let function = function_of(vec![
        float(1.0),
        Expression::Compose { ty: t(0), components: vec![e(0)] },
    ]);
    assert_eq!(
        generator.eval_cached_expr(Some(&state(&function)), e(1)),
        Err(error(Info::NotComposable(t(0)), Span::new(1, 2)))
    );
    assert!(generator.module.code.is_empty());
}

fn padded_struct() -> Vec<TypeInner> {
    let member = |offset| StructMember { name: None, ty: t(0), offset };
    vec![
        TypeInner::Scalar(F32),
        TypeInner::Struct { members: vec![member(0), member(4), member(16)], span: 20 },
    ]
}

fn float_target() -> TargetInfo {
    let mut target = TargetInfo::new();
    target.describe(NativeType::Float, 4, 4);
    target
}

#[test]
fn struct_members_pass_over_padding() {
    let mut generator = generator_for(padded_struct(), float_target());
    let function = function_of(vec![
        float(1.0),
        float(2.0),
        float(3.0),
        Expression::Compose { ty: t(1), components: vec![e(0), e(1), e(2)] },
        Expression::AccessIndex { base: e(3), index: 0 },
        Expression::AccessIndex { base: e(3), index: 1 },
        Expression::AccessIndex { base: e(3), index: 2 },
    ]);
    let location = state(&function);
    assert_eq!(generator.eval_cached_expr(Some(&location), e(3)), Ok((v(6), t(1))));
    assert_eq!(generator.struct_maps[&1], vec![0, 1, 3]);
    let written: Vec<(NativeValue, u32)> = generator
        .module
        .code
        .iter()
        .filter_map(|emitted| match emitted.inst {
            Inst::InsertValue { element, index, .. } => Some((element, index)),
            _ => None,
        })
        .collect();
    assert_eq!(written, vec![(v(1), 0), (v(3), 1), (v(5), 3)]);
    for (member, slot) in [(0usize, 0u32), (1, 1), (2, 3)] {
        let before = generator.module.code.len();
        let lowered = generator.eval_cached_expr(Some(&location), e(4 + member));
        assert_eq!(lowered, Ok((v(before + 1), t(0))));
        assert_eq!(generator.module.code[before].inst, Inst::ConstU64(slot as u64));
        assert_eq!(
            generator.module.code[before + 1].inst,
            Inst::ExtractValue { aggregate: v(6), index: slot }
        );
    }
}

#[test]
fn member_beyond_the_struct_is_a_fault() {
    let mut generator = generator_for(padded_struct(), float_target());
    let function = function_of(vec![
        Expression::ZeroValue(t(1)),
        Expression::AccessIndex { base: e(0), index: 3 },
    ]);
    assert_eq!(
        generator.eval_cached_expr(Some(&state(&function)), e(1)),
        Err(Halt::Fault(Fault::IndexOutOfRange))
    );
}

fn with_local<'a>(function: &'a Function, pointer: NativeValue, ty: TypeHandle) -> FunctionState<'a> {
    FunctionState { src_function: function, locals: vec![(pointer, ty)], params: Vec::new() }
}

#[test]
fn member_through_a_pointer_is_addressed_at_its_native_slot() {
    let mut types = padded_struct();
    types.push(TypeInner::Pointer { base: t(1), space: AddressSpace::Storage { access: 1 } });
    let mut generator = generator_for(types, float_target());
    let function = function_of(vec![
        Expression::LocalVariable(0),
        Expression::AccessIndex { base: e(0), index: 2 },
    ]);
    let location = with_local(&function, v(40), t(2));
    assert!(generator.struct_maps.is_empty());
    assert_eq!(generator.eval_cached_expr(Some(&location), e(1)), Ok((v(2), t(3))));
    assert_eq!(generator.struct_maps[&1], vec![0, 1, 3]);
    assert_eq!(
        insts(&generator),
        vec![
            &Inst::ConstU32(3),
            &Inst::ConstU64(0),
            &Inst::ElementPointer {
                pointee: NativeType::Struct {
                    members: shader_lower::codegen::native::Members::Then(
                        Box::new(NativeType::Float),
                        Box::new(shader_lower::codegen::native::Members::Then(
                            Box::new(NativeType::Float),
                            Box::new(shader_lower::codegen::native::Members::Then(
                                Box::new(NativeType::Int(64)),
                                Box::new(shader_lower::codegen::native::Members::Then(
                                    Box::new(NativeType::Float),
                                    Box::new(shader_lower::codegen::native::Members::End),
                                )),
                            )),
                        )),
                    ),
                },
                base: v(40),
                zero: v(1),
                index: v(0),
            },
        ]
    );
    assert_eq!(
        type_at(&generator, 3),
        TypeInner::Pointer { base: t(0), space: AddressSpace::Storage { access: 1 } }
    );
    assert_eq!(generator.module.src.types.get_span(t(3)), Span::new(101, 200));
}

#[test]
fn element_through_a_pointer_is_selected_by_any_index() {
    let mut generator = generator_for(
        vec![
            TypeInner::Scalar(F32),
            TypeInner::Array { base: t(0), size: ArraySize::Constant(4), stride: 4 },
            TypeInner::Pointer { base: t(1), space: AddressSpace::Function },
            TypeInner::Scalar(U32),
        ],
        TargetInfo::new(),
    );
    let function = function_of(vec![
        Expression::LocalVariable(0),
        Expression::AccessIndex { base: e(0), index: 3 },
        Expression::FunctionArgument(0),
        Expression::Access { base: e(0), index: e(2) },
    ]);
    let location = FunctionState {
        src_function: &function,
        locals: vec![(v(40), t(2))],
        params: vec![(v(41), t(3))],
    };
    assert_eq!(generator.eval_cached_expr(Some(&location), e(1)), Ok((v(2), t(4))));
    assert_eq!(generator.eval_cached_expr(Some(&location), e(3)), Ok((v(4), t(4))));
    assert_eq!(
        insts(&generator),
        vec![
            &Inst::ConstU64(3),
            &Inst::ConstU64(0),
            &Inst::ElementPointer {
                pointee: NativeType::array(NativeType::Float, 4),
                base: v(40),
                zero: v(1),
                index: v(0),
            },
            &Inst::ConstU64(0),
            &Inst::ElementPointer {
                pointee: NativeType::array(NativeType::Float, 4),
                base: v(40),
                zero: v(3),
                index: v(41),
            },
        ]
    );
    assert_eq!(type_at(&generator, 4), TypeInner::Pointer { base: t(0), space: AddressSpace::Function });
}

#[test]
fn member_through_a_pointer_needs_a_constant_index() {
    let mut types = padded_struct();
    types.push(TypeInner::Pointer { base: t(1), space: AddressSpace::Function });
    types.push(TypeInner::Scalar(U32));
    let mut generator = generator_for(types, float_target());
    let function = function_of(vec![
        Expression::LocalVariable(0),
        Expression::FunctionArgument(0),
        Expression::Access { base: e(0), index: e(1) },
    ]);
    let location = FunctionState {
        src_function: &function,
        locals: vec![(v(40), t(2))],
        params: vec![(v(41), t(3))],
    };
    assert_eq!(
        generator.eval_cached_expr(Some(&location), e(2)),
        Err(error(Info::NonConstantIndex, Span::new(2, 3)))
    );
}

#[test]
fn element_of_a_vector_is_extracted_at_any_index() {
    let mut generator = generator_for(
        vec![
            TypeInner::Scalar(F32),
            TypeInner::Vector { size: VectorSize::Quad, scalar: F32 },
            TypeInner::Scalar(U32),
        ],
        TargetInfo::new(),
    );
    let function = function_of(vec![
        Expression::FunctionArgument(0),
        Expression::FunctionArgument(1),
        Expression::Access { base: e(0), index: e(1) },
        Expression::AccessIndex { base: e(0), index: 2 },
    ]);
    let location = FunctionState {
        src_function: &function,
        locals: Vec::new(),
        params: vec![(v(40), t(1)), (v(41), t(2))],
    };
    assert_eq!(generator.eval_cached_expr(Some(&location), e(2)), Ok((v(0), t(0))));
    assert_eq!(generator.eval_cached_expr(Some(&location), e(3)), Ok((v(2), t(0))));
    assert_eq!(
        insts(&generator),
        vec![
            &Inst::ExtractElement { vector: v(40), index: v(41) },
            &Inst::ConstU64(2),
            &Inst::ExtractElement { vector: v(40), index: v(1) },
        ]
    );
}

#[test]
fn element_of_an_array_value_needs_an_index_that_lowering_can_tell() {
    let mut generator = generator_for(
        vec![
            TypeInner::Scalar(F32),
            TypeInner::Array { base: t(0), size: ArraySize::Constant(4), stride: 4 },
            TypeInner::Scalar(U32),
        ],
        TargetInfo::new(),
    );
    let function = function_of(vec![
        Expression::FunctionArgument(0),
        Expression::FunctionArgument(1),
        Expression::Access { base: e(0), index: e(1) },
        Expression::Literal(Literal::U32(3)),
        Expression::Access { base: e(0), index: e(3) },
        Expression::ZeroValue(t(2)),
        Expression::Access { base: e(0), index: e(5) },
        Expression::Literal(Literal::I32(1)),
        Expression::Access { base: e(0), index: e(7) },
    ]);
    let location = FunctionState {
        src_function: &function,
        locals: Vec::new(),
        params: vec![(v(40), t(1)), (v(41), t(2))],
    };
    assert_eq!(
        generator.eval_cached_expr(Some(&location), e(2)),
        Err(error(Info::NonConstantIndex, Span::new(2, 3)))
    );
    assert!(generator.module.code.is_empty());
    assert_eq!(generator.eval_cached_expr(Some(&location), e(4)), Ok((v(1), t(0))));
    assert_eq!(generator.eval_cached_expr(Some(&location), e(6)), Ok((v(3), t(0))));
    assert_eq!(
        insts(&generator),
        vec![
            &Inst::ConstU32(3),
            &Inst::ExtractValue { aggregate: v(40), index: 3 },
            &Inst::ConstNull(NativeType::Int(32)),
            &Inst::ExtractValue { aggregate: v(40), index: 0 },
        ]
    );
    assert_eq!(
        generator.eval_cached_expr(Some(&location), e(8)),
        Err(error(Info::NonConstantIndex, Span::new(8, 9)))
    );
}

#[test]
fn scalar_has_no_items() {
    let mut generator = generator_for(vec![TypeInner::Scalar(F32)], TargetInfo::new());
    let function = function_of(vec![float(1.0), Expression::AccessIndex { base: e(0), index: 0 }]);
    assert_eq!(
        generator.eval_cached_expr(Some(&state(&function)), e(1)),
        Err(error(Info::NotIndexable(t(0)), Span::new(1, 2)))
    );
}

#[test]
fn column_of_a_matrix_value_is_a_selection_of_its_lanes() {
    let mut generator = generator_for(
        vec![TypeInner::Matrix { columns: VectorSize::Bi, rows: VectorSize::Tri, scalar: F32 }],
        TargetInfo::new(),
    );
    let function = function_of(vec![
        Expression::ZeroValue(t(0)),
        Expression::AccessIndex { base: e(0), index: 1 },
        Expression::AccessIndex { base: e(0), index: 2 },
        Expression::FunctionArgument(0),
        Expression::Access { base: e(0), index: e(3) },
    ]);
    let location = FunctionState {
        src_function: &function,
        locals: Vec::new(),
        params: vec![(v(40), t(0))],
    };
    assert_eq!(generator.eval_cached_expr(Some(&location), e(1)), Ok((v(13), t(1))));
    assert_eq!(type_at(&generator, 1), TypeInner::Vector { size: VectorSize::Tri, scalar: F32 });
    assert_eq!(
        insts(&generator),
        vec![
            &Inst::ConstNull(vector(NativeType::Float, 6)),
            &Inst::ConstU64(1),
            &Inst::Undef(vector(NativeType::Int(64), 3)),
            &Inst::ConstU64(3),
            &Inst::ConstU64(0),
            &Inst::InsertElement { vector: v(2), element: v(3), index: v(4) },
            &Inst::ConstU64(4),
            &Inst::ConstU64(1),
            &Inst::InsertElement { vector: v(5), element: v(6), index: v(7) },
            &Inst::ConstU64(5),
            &Inst::ConstU64(2),
            &Inst::InsertElement { vector: v(8), element: v(9), index: v(10) },
            &Inst::Undef(vector(NativeType::Float, 6)),
            &Inst::ShuffleVector { first: v(0), second: v(12), mask: v(11) },
        ]
    );
    assert_eq!(
        generator.eval_cached_expr(Some(&location), e(2)),
        Err(error(Info::NoSuchComponent(t(0), 7), Span::new(2, 3)))
    );
    assert_eq!(generator.module.code.len(), 15);
    assert_eq!(
        generator.eval_cached_expr(Some(&location), e(4)),
        Err(error(Info::NonConstantIndex, Span::new(4, 5)))
    );
}

#[test]
fn constant_is_splat_into_a_constant_vector() {
    let mut generator = generator_for(vec![], TargetInfo::new());
    let function = function_of(vec![
        float(0.5),
        Expression::Splat { size: VectorSize::Tri, value: e(0) },
    ]);
    assert_eq!(generator.eval_cached_expr(Some(&state(&function)), e(1)), Ok((v(1), t(1))));
    assert_eq!(
        insts(&generator),
        vec![&Inst::ConstF32(0.5f32.to_bits()), &Inst::ConstVector { element: v(0), len: 3 }]
    );
    assert!(generator.module.code[1].constant);
    assert_eq!(type_at(&generator, 1), TypeInner::Vector { size: VectorSize::Tri, scalar: F32 });
}

#[test]
fn other_value_is_splat_lane_by_lane() {
    let mut generator = generator_for(vec![TypeInner::Scalar(I32)], TargetInfo::new());
    let function = function_of(vec![
        Expression::FunctionArgument(0),
        Expression::Splat { size: VectorSize::Bi, value: e(0) },
    ]);
    let location = FunctionState {
        src_function: &function,
        locals: Vec::new(),
        params: vec![(v(40), t(0))],
    };
    assert_eq!(generator.eval_cached_expr(Some(&location), e(1)), Ok((v(4), t(1))));
    assert_eq!(
        insts(&generator),
        vec![
            &Inst::Undef(vector(NativeType::Int(32), 2)),
            &Inst::ConstU64(0),
            &Inst::InsertElement { vector: v(0), element: v(40), index: v(1) },
            &Inst::ConstU64(1),
            &Inst::InsertElement { vector: v(2), element: v(40), index: v(3) },
        ]
    );
    assert!(!generator.module.code[4].constant);
}

#[test]
fn splat_of_a_vector_is_a_fault() {
    let mut generator = generator_for(
        vec![TypeInner::Vector { size: VectorSize::Bi, scalar: F32 }],
        TargetInfo::new(),
    );
    let function = function_of(vec![
        Expression::ZeroValue(t(0)),
        Expression::Splat { size: VectorSize::Bi, value: e(0) },
    ]);
    assert_eq!(
        generator.eval_cached_expr(Some(&state(&function)), e(1)),
        Err(Halt::Fault(Fault::SplatOfNonScalar))
    );
}

#[test]
fn swizzle_shuffles_under_a_mask() {
    let mut generator = generator_for(
        vec![TypeInner::Vector { size: VectorSize::Tri, scalar: F32 }],
        TargetInfo::new(),
    );
    let lowered = generator.build_swizzle(Span::new(3, 4), VectorSize::Bi, v(40), t(0), [2, 0, 9, 9]);
    assert_eq!(lowered, Ok((v(8), t(1))));
    assert_eq!(
        insts(&generator),
        vec![
            &Inst::Undef(vector(NativeType::Int(64), 2)),
            &Inst::ConstU64(2),
            &Inst::ConstU64(0),
            &Inst::InsertElement { vector: v(0), element: v(1), index: v(2) },
            &Inst::ConstU64(0),
            &Inst::ConstU64(1),
            &Inst::InsertElement { vector: v(3), element: v(4), index: v(5) },
            &Inst::Undef(vector(NativeType::Float, 3)),
            &Inst::ShuffleVector { first: v(40), second: v(7), mask: v(6) },
        ]
    );
    assert_eq!(type_at(&generator, 1), TypeInner::Vector { size: VectorSize::Bi, scalar: F32 });
    assert_eq!(generator.module.src.types.get_span(t(1)), Span::new(3, 4));
}

#[test]
fn swizzle_lane_may_equal_the_size_but_not_exceed_it() {
    let types = vec![TypeInner::Vector { size: VectorSize::Bi, scalar: F32 }];
    let span = Span::new(3, 4);
    let mut generator = generator_for(types.clone(), TargetInfo::new());
    assert!(generator.build_swizzle(span, VectorSize::Quad, v(40), t(0), [0, 1, 2, 1]).is_ok());
    assert_eq!(type_at(&generator, 1), TypeInner::Vector { size: VectorSize::Quad, scalar: F32 });

    let mut generator = generator_for(types.clone(), TargetInfo::new());
    assert_eq!(
        generator.build_swizzle(span, VectorSize::Quad, v(40), t(0), [0, 1, 3, 4]),
        Err(error(Info::NoSuchComponent(t(0), 3), span))
    );
    assert!(generator.module.code.is_empty());
    assert_eq!(generator.module.src.types.len(), 1);

    let mut generator = generator_for(types, TargetInfo::new());
    assert!(generator.build_swizzle(span, VectorSize::Bi, v(40), t(0), [0, 1, 3, 4]).is_ok());
}

#[test]
fn swizzle_expression_reads_its_pattern() {
    let mut generator = generator_for(
        vec![TypeInner::Vector { size: VectorSize::Bi, scalar: F32 }],
        TargetInfo::new(),
    );
    let function = function_of(vec![
        Expression::ZeroValue(t(0)),
        Expression::Swizzle {
            size: VectorSize::Bi,
            vector: e(0),
            pattern: [
                SwizzleComponent::Y,
                SwizzleComponent::W,
                SwizzleComponent::X,
                SwizzleComponent::X,
            ],
        },
    ]);
    assert_eq!(
        generator.eval_cached_expr(Some(&state(&function)), e(1)),
        Err(error(Info::NoSuchComponent(t(0), 3), Span::new(1, 2)))
    );
    assert_eq!(generator.module.code.len(), 1);
}

#[test]
fn swizzle_of_a_scalar_is_refused() {
    let mut generator = generator_for(vec![TypeInner::Scalar(F32)], TargetInfo::new());
    let span = Span::new(3, 4);
    assert_eq!(
        generator.build_swizzle(span, VectorSize::Bi, v(40), t(0), [0, 0, 0, 0]),
        Err(error(Info::NonVectorSwizzle(t(0)), span))
    );
}

#[test]
fn load_reads_the_pointee() {
    let mut generator = generator_for(
        vec![
            TypeInner::Vector { size: VectorSize::Bi, scalar: U32 },
            TypeInner::Pointer { base: t(0), space: AddressSpace::Private },
        ],
        TargetInfo::new(),
    );
    assert_eq!(generator.build_load_from(Span::undefined(), v(40), t(1)), Ok((v(0), t(0))));
    assert_eq!(
        insts(&generator),
        vec![&Inst::Load { ty: vector(NativeType::Int(32), 2), pointer: v(40) }]
    );
    assert!(!generator.module.code[0].constant);
}

#[test]
fn load_through_a_value_pointer_reads_a_scalar() {
    let mut generator = generator_for(
        vec![TypeInner::ValuePointer { size: None, scalar: F32, space: AddressSpace::Function }],
        TargetInfo::new(),
    );
    assert_eq!(generator.build_load_from(Span::undefined(), v(40), t(0)), Ok((v(0), t(1))));
    assert_eq!(insts(&generator), vec![&Inst::Load { ty: NativeType::Float, pointer: v(40) }]);
    assert_eq!(type_at(&generator, 1), TypeInner::Scalar(F32));
}

#[test]
fn load_of_a_value_is_refused() {
    let mut generator = generator_for(vec![TypeInner::Scalar(F32)], TargetInfo::new());
    let function = function_of(vec![float(1.0), Expression::Load { pointer: e(0) }]);
    assert_eq!(
        generator.eval_cached_expr(Some(&state(&function)), e(1)),
        Err(error(Info::NotPointer(t(0)), Span::new(1, 2)))
    );
}

fn matrix_types() -> Vec<TypeInner> {
    vec![
        TypeInner::Matrix { columns: VectorSize::Bi, rows: VectorSize::Tri, scalar: F32 },
        TypeInner::Pointer { base: t(0), space: AddressSpace::Private },
    ]
}

#[test]
fn matrix_is_loaded_column_by_column() {
    let mut target = TargetInfo::new();
    target.describe(vector(NativeType::Float, 3), 16, 16);
    let mut generator = generator_for(matrix_types(), target);
    assert_eq!(generator.build_load_from(Span::undefined(), v(40), t(1)), Ok((v(4), t(0))));
    assert_eq!(
        insts(&generator),
        vec![
            &Inst::ConstU64(4),
            &Inst::ConstBool(false),
            &Inst::ConstU32(3),
            &Inst::ConstU32(2),
            &Inst::ColumnMajorLoad {
                result: vector(NativeType::Float, 6),
                pointer: v(40),
                stride: v(0),
                volatile: v(1),
                rows: v(2),
                columns: v(3),
            },
        ]
    );
}

#[test]
fn matrix_is_stored_column_by_column() {
    let mut target = TargetInfo::new();
    target.describe(vector(NativeType::Float, 3), 16, 16);
    let mut generator = generator_for(matrix_types(), target);
    assert_eq!(generator.build_store_to(Span::undefined(), v(40), v(41), t(0)), Ok(()));
    assert_eq!(
        insts(&generator),
        vec![
            &Inst::ConstU64(4),
            &Inst::ConstBool(false),
            &Inst::ConstU32(3),
            &Inst::ConstU32(2),
            &Inst::ColumnMajorStore {
                value: v(41),
                pointer: v(40),
                stride: v(0),
                volatile: v(1),
                rows: v(2),
                columns: v(3),
            },
        ]
    );
    assert_eq!(generator.build_store_to(Span::undefined(), v(40), v(41), t(1)), Ok(()));
    assert_eq!(generator.module.code[5].inst, Inst::Store { value: v(41), pointer: v(40) });
}

#[test]
fn matrix_column_of_unknown_alignment_stops_the_load() {
    let mut generator = generator_for(matrix_types(), TargetInfo::new());
    assert_eq!(
        generator.build_load_from(Span::undefined(), v(40), t(1)),
        Err(Halt::UnknownLayout(vector(NativeType::Float, 3)))
    );
    assert!(generator.module.code.is_empty());
}

#[test]
fn column_stride_is_the_alignment_in_elements() {
    let mut target = TargetInfo::new();
    target.describe(vector(NativeType::Double, 2), 16, 16);
    target.describe(vector(NativeType::Half, 4), 8, 8);
    target.describe(vector(NativeType::Int(0), 2), 1, 8);
    let generator = generator_for(vec![], target);
    let span = Span::undefined();
    assert_eq!(
        generator.eval_column_stride(span, Scalar { kind: ScalarKind::Float, width: 8 }, VectorSize::Bi),
        Ok((NativeType::Double, 2))
    );
    assert_eq!(
        generator.eval_column_stride(span, Scalar { kind: ScalarKind::Float, width: 2 }, VectorSize::Quad),
        Ok((NativeType::Half, 4))
    );
    assert_eq!(
        generator.eval_column_stride(span, Scalar { kind: ScalarKind::Uint, width: 0 }, VectorSize::Bi),
        Err(Halt::Fault(Fault::Arithmetic))
    );
}

#[test]
fn operators_select_instructions_by_kind() {
    let table = [
        (BinaryOperator::Add, ScalarKind::Float, Opcode::FAdd),
        (BinaryOperator::Add, ScalarKind::Sint, Opcode::Add),
        (BinaryOperator::Add, ScalarKind::Uint, Opcode::Add),
        (BinaryOperator::Subtract, ScalarKind::Float, Opcode::FSub),
        (BinaryOperator::Subtract, ScalarKind::Uint, Opcode::Sub),
        (BinaryOperator::Multiply, ScalarKind::Float, Opcode::FMul),
        (BinaryOperator::Multiply, ScalarKind::Sint, Opcode::Mul),
        (BinaryOperator::Divide, ScalarKind::Float, Opcode::FDiv),
        (BinaryOperator::Divide, ScalarKind::Sint, Opcode::SDiv),
        (BinaryOperator::Divide, ScalarKind::Uint, Opcode::UDiv),
        (BinaryOperator::Modulo, ScalarKind::Float, Opcode::FRem),
        (BinaryOperator::Modulo, ScalarKind::Sint, Opcode::SRem),
        (BinaryOperator::Modulo, ScalarKind::Uint, Opcode::URem),
        (BinaryOperator::Equal, ScalarKind::Sint, Opcode::ICmpEq),
        (BinaryOperator::Equal, ScalarKind::Bool, Opcode::ICmpEq),
        (BinaryOperator::Equal, ScalarKind::Float, Opcode::FCmpOeq),
        (BinaryOperator::NotEqual, ScalarKind::Uint, Opcode::ICmpNe),
        (BinaryOperator::NotEqual, ScalarKind::Float, Opcode::FCmpUne),
        (BinaryOperator::Less, ScalarKind::Uint, Opcode::ICmpUlt),
        (BinaryOperator::Less, ScalarKind::Bool, Opcode::ICmpUlt),
        (BinaryOperator::Less, ScalarKind::Sint, Opcode::ICmpSlt),
        (BinaryOperator::Less, ScalarKind::Float, Opcode::FCmpOlt),
        (BinaryOperator::LessEqual, ScalarKind::Uint, Opcode::ICmpUle),
        (BinaryOperator::LessEqual, ScalarKind::Sint, Opcode::ICmpSle),
        (BinaryOperator::LessEqual, ScalarKind::Float, Opcode::FCmpOle),
        (BinaryOperator::Greater, ScalarKind::Uint, Opcode::ICmpUgt),
        (BinaryOperator::Greater, ScalarKind::Sint, Opcode::ICmpSgt),
        (BinaryOperator::Greater, ScalarKind::Float, Opcode::FCmpOgt),
        (BinaryOperator::GreaterEqual, ScalarKind::Bool, Opcode::ICmpUge),
        (BinaryOperator::GreaterEqual, ScalarKind::Sint, Opcode::ICmpSge),
        (BinaryOperator::GreaterEqual, ScalarKind::Float, Opcode::FCmpOge),
        (BinaryOperator::And, ScalarKind::Sint, Opcode::And),
        (BinaryOperator::ExclusiveOr, ScalarKind::Uint, Opcode::Xor),
        (BinaryOperator::InclusiveOr, ScalarKind::Sint, Opcode::Or),
        (BinaryOperator::LogicalAnd, ScalarKind::Bool, Opcode::And),
        (BinaryOperator::LogicalOr, ScalarKind::Bool, Opcode::Or),
        (BinaryOperator::ShiftLeft, ScalarKind::Sint, Opcode::Shl),
        (BinaryOperator::ShiftLeft, ScalarKind::Uint, Opcode::Shl),
        (BinaryOperator::ShiftRight, ScalarKind::Uint, Opcode::LShr),
        (BinaryOperator::ShiftRight, ScalarKind::Sint, Opcode::AShr),
    ];
    for (op, kind, opcode) in table {
        assert_eq!(select_instruction(op, kind), Some(opcode), "{:?} on {:?}", op, kind);
    }
    let none = [
        (BinaryOperator::Add, ScalarKind::Bool),
        (BinaryOperator::Multiply, ScalarKind::Bool),
        (BinaryOperator::And, ScalarKind::Float),
        (BinaryOperator::And, ScalarKind::Bool),
        (BinaryOperator::ExclusiveOr, ScalarKind::Float),
        (BinaryOperator::LogicalAnd, ScalarKind::Uint),
        (BinaryOperator::LogicalOr, ScalarKind::Float),
        (BinaryOperator::ShiftLeft, ScalarKind::Float),
        (BinaryOperator::ShiftRight, ScalarKind::Bool),
        (BinaryOperator::Add, ScalarKind::AbstractInt),
        (BinaryOperator::Equal, ScalarKind::AbstractFloat),
    ];
    for (op, kind) in none {
        assert_eq!(select_instruction(op, kind), None, "{:?} on {:?}", op, kind);
    }
}

#[test]
fn operands_of_different_types_are_incompatible() {
    let ops = [
        BinaryOperator::Add,
        BinaryOperator::Subtract,
        BinaryOperator::Multiply,
        BinaryOperator::Divide,
        BinaryOperator::Modulo,
        BinaryOperator::Equal,
        BinaryOperator::NotEqual,
        BinaryOperator::Less,
        BinaryOperator::LessEqual,
        BinaryOperator::Greater,
        BinaryOperator::GreaterEqual,
        BinaryOperator::And,
        BinaryOperator::ExclusiveOr,
        BinaryOperator::InclusiveOr,
        BinaryOperator::LogicalAnd,
        BinaryOperator::LogicalOr,
        BinaryOperator::ShiftLeft,
        BinaryOperator::ShiftRight,
    ];
    let span = Span::new(9, 10);
    for op in ops {
        let mut generator =
            generator_for(vec![TypeInner::Scalar(F32), TypeInner::Scalar(U32)], TargetInfo::new());
        assert_eq!(
            generator.build_binary_on(span, op, (v(40), t(0)), (v(41), t(1))),
            Err(error(
                Info::IncompatibleBinary { operator: op, lhs: t(0), rhs: Some(t(1)) },
                span
            )),
        );
        assert!(generator.module.code.is_empty());
        assert_eq!(generator.module.src.types.len(), 2);
    }
}

#[test]
fn operator_that_does_not_apply_names_no_right_type() {
    let mut generator = generator_for(
        vec![
            TypeInner::Scalar(BOOL),
            TypeInner::Vector { size: VectorSize::Bi, scalar: F32 },
            TypeInner::Scalar(Scalar { kind: ScalarKind::AbstractInt, width: 8 }),
            TypeInner::Pointer { base: t(0), space: AddressSpace::Function },
            TypeInner::Matrix { columns: VectorSize::Bi, rows: VectorSize::Bi, scalar: BOOL },
        ],
        TargetInfo::new(),
    );
    let span = Span::new(9, 10);
    let mut apply = |op, ty| generator.build_binary_on(span, op, (v(40), t(ty)), (v(41), t(ty)));
    assert_eq!(
        apply(BinaryOperator::Add, 0),
        Err(error(
            Info::IncompatibleBinary { operator: BinaryOperator::Add, lhs: t(0), rhs: None },
            span
        ))
    );
    assert_eq!(
        apply(BinaryOperator::ShiftRight, 1),
        Err(error(
            Info::IncompatibleBinary { operator: BinaryOperator::ShiftRight, lhs: t(1), rhs: None },
            span
        ))
    );
    assert_eq!(
        apply(BinaryOperator::Add, 2),
        Err(error(Info::IllegalScalar(Scalar { kind: ScalarKind::AbstractInt, width: 8 }), span))
    );
    assert_eq!(
        apply(BinaryOperator::Equal, 3),
        Err(error(
            Info::IncompatibleBinary { operator: BinaryOperator::Equal, lhs: t(3), rhs: None },
            span
        ))
    );
    assert_eq!(
        apply(BinaryOperator::Subtract, 4),
        Err(error(
            Info::IncompatibleBinary { operator: BinaryOperator::Subtract, lhs: t(4), rhs: None },
            span
        ))
    );
    assert!(generator.module.code.is_empty());
}

#[test]
fn comparison_keeps_the_type_of_its_operands() {
    let mut generator = generator_for(
        vec![TypeInner::Vector { size: VectorSize::Bi, scalar: I32 }],
        TargetInfo::new(),
    );
    assert_eq!(
        generator.build_binary_on(Span::undefined(), BinaryOperator::Less, (v(40), t(0)), (v(41), t(0))),
        Ok((v(0), t(0)))
    );
    assert_eq!(
        insts(&generator),
        vec![&Inst::Binary { op: Opcode::ICmpSlt, lhs: v(40), rhs: v(41) }]
    );
}

#[test]
fn matrices_are_added_column_by_column() {
    let mut generator = generator_for(
        vec![TypeInner::Matrix { columns: VectorSize::Bi, rows: VectorSize::Tri, scalar: F32 }],
        TargetInfo::new(),
    );
    assert_eq!(
        generator.build_binary_on(Span::undefined(), BinaryOperator::Add, (v(40), t(0)), (v(41), t(0))),
        Ok((v(8), t(0)))
    );
    assert_eq!(
        insts(&generator),
        vec![
            &Inst::Undef(vector(NativeType::Float, 6)),
            &Inst::ExtractValue { aggregate: v(40), index: 0 },
            &Inst::ExtractValue { aggregate: v(41), index: 0 },
            &Inst::Binary { op: Opcode::FAdd, lhs: v(1), rhs: v(2) },
            &Inst::InsertValue { aggregate: v(0), element: v(3), index: 0 },
            &Inst::ExtractValue { aggregate: v(40), index: 1 },
            &Inst::ExtractValue { aggregate: v(41), index: 1 },
            &Inst::Binary { op: Opcode::FAdd, lhs: v(5), rhs: v(6) },
            &Inst::InsertValue { aggregate: v(4), element: v(7), index: 1 },
        ]
    );
}

fn product_types() -> Vec<TypeInner> {
    vec![
        TypeInner::Matrix { columns: VectorSize::Bi, rows: VectorSize::Tri, scalar: F32 },
        TypeInner::Matrix { columns: VectorSize::Quad, rows: VectorSize::Bi, scalar: F32 },
        TypeInner::Vector { size: VectorSize::Bi, scalar: F32 },
        TypeInner::Vector { size: VectorSize::Tri, scalar: F32 },
        TypeInner::Matrix { columns: VectorSize::Quad, rows: VectorSize::Tri, scalar: F32 },
    ]
}

#[test]
fn matrix_times_matrix_is_a_matrix() {
    let mut generator = generator_for(product_types(), TargetInfo::new());
    let lowered =
        generator.build_binary_on(Span::new(9, 10), BinaryOperator::Multiply, (v(40), t(0)), (v(41), t(1)));
    assert_eq!(lowered, Ok((v(3), t(4))));
    assert_eq!(
        insts(&generator),
        vec![
            &Inst::ConstU32(3),
            &Inst::ConstU32(2),
            &Inst::ConstU32(4),
            &Inst::MatrixMultiply {
                result: vector(NativeType::Float, 12),
                lhs: v(40),
                rhs: v(41),
                rows: v(0),
                inner: v(1),
                columns: v(2),
            },
        ]
    );
}

#[test]
fn matrix_times_vector_is_a_vector_of_the_rows() {
    let mut generator = generator_for(product_types(), TargetInfo::new());
    let lowered =
        generator.build_mul(Span::new(9, 10), (v(40), t(0)), (v(41), t(2)));
    assert_eq!(lowered, Ok((v(3), t(3))));
    assert_eq!(
        generator.module.code[3].inst,
        Inst::MatrixMultiply {
            result: vector(NativeType::Float, 3),
            lhs: v(40),
            rhs: v(41),
            rows: v(0),
            inner: v(1),
            columns: v(2),
        }
    );
    assert_eq!(
        insts(&generator)[..3],
        [&Inst::ConstU32(3), &Inst::ConstU32(2), &Inst::ConstU32(1)]
    );
}

#[test]
fn vector_times_matrix_is_a_vector_of_the_columns() {
    let mut generator = generator_for(product_types(), TargetInfo::new());
    let lowered = generator.build_mul(Span::new(9, 10), (v(40), t(2)), (v(41), t(1)));
    assert_eq!(lowered, Ok((v(3), t(5))));
    assert_eq!(type_at(&generator, 5), TypeInner::Vector { size: VectorSize::Quad, scalar: F32 });
    assert_eq!(generator.module.src.types.get_span(t(5)), Span::new(102, 200));
    assert_eq!(
        generator.module.code[3].inst,
        Inst::MatrixMultiply {
            result: vector(NativeType::Float, 4),
            lhs: v(40),
            rhs: v(41),
            rows: v(0),
            inner: v(1),
            columns: v(2),
        }
    );
    assert_eq!(
        insts(&generator)[..3],
        [&Inst::ConstU32(1), &Inst::ConstU32(2), &Inst::ConstU32(4)]
    );
}

#[test]
fn product_of_shapes_that_do_not_fit_is_component_wise() {
    let span = Span::new(9, 10);
    let incompatible = |lhs, rhs| {
        Err(error(
            Info::IncompatibleBinary { operator: BinaryOperator::Multiply, lhs: t(lhs), rhs: Some(t(rhs)) },
            span,
        ))
    };
    let mut generator = generator_for(product_types(), TargetInfo::new());
    assert_eq!(generator.build_mul(span, (v(40), t(0)), (v(41), t(3))), incompatible(0, 3));
    assert_eq!(generator.build_mul(span, (v(40), t(0)), (v(41), t(4))), incompatible(0, 4));
    assert_eq!(generator.build_mul(span, (v(40), t(3)), (v(41), t(1))), incompatible(3, 1));
    assert_eq!(generator.build_mul(span, (v(40), t(2)), (v(41), t(3))), incompatible(2, 3));
    assert!(generator.module.code.is_empty());
    assert_eq!(generator.build_mul(span, (v(40), t(0)), (v(41), t(0))).map(|typed| typed.1), Ok(t(0)));
    assert_eq!(generator.module.code.len(), 9);
    assert_eq!(generator.build_mul(span, (v(40), t(3)), (v(41), t(3))), Ok((v(9), t(3))));
    assert_eq!(
        generator.module.code[9].inst,
        Inst::Binary { op: Opcode::FMul, lhs: v(40), rhs: v(41) }
    );
}

#[test]
fn variables_and_parameters_come_from_the_location() {
    let mut src = module_with(vec![TypeInner::Scalar(F32)]);
    src.const_expressions.append(Expression::LocalVariable(0), Span::undefined());
    src.const_expressions.append(Expression::FunctionArgument(0), Span::undefined());
    src.const_expressions.append(Expression::GlobalVariable(0), Span::undefined());
    let mut generator = Generator::new(src, "variables.wgsl", TargetInfo::new());
    generator.globals.push((v(7), t(0)));
    let function = function_of(vec![
        Expression::LocalVariable(0),
        Expression::LocalVariable(1),
        Expression::FunctionArgument(1),
        Expression::FunctionArgument(2),
        Expression::GlobalVariable(0),
        Expression::GlobalVariable(1),
    ]);
    let location = FunctionState {
        src_function: &function,
        locals: vec![(v(40), t(0))],
        params: vec![(v(41), t(0)), (v(42), t(0))],
    };
    assert_eq!(generator.eval_cached_expr(Some(&location), e(0)), Ok((v(40), t(0))));
    assert_eq!(
        generator.eval_cached_expr(Some(&location), e(1)),
        Err(Halt::Fault(Fault::IndexOutOfRange))
    );
    assert_eq!(generator.eval_cached_expr(Some(&location), e(2)), Ok((v(42), t(0))));
    assert_eq!(
        generator.eval_cached_expr(Some(&location), e(3)),
        Err(Halt::Fault(Fault::IndexOutOfRange))
    );
    assert_eq!(generator.eval_cached_expr(Some(&location), e(4)), Ok((v(7), t(0))));
    assert_eq!(
        generator.eval_cached_expr(Some(&location), e(5)),
        Err(Halt::Fault(Fault::IndexOutOfRange))
    );
    assert_eq!(
        generator.eval_cached_expr(None, e(0)),
        Err(Halt::Fault(Fault::LocalInGlobalContext))
    );
    assert_eq!(
        generator.eval_cached_expr(None, e(1)),
        Err(Halt::Fault(Fault::ParameterInGlobalContext))
    );
    assert_eq!(generator.eval_cached_expr(None, e(2)), Ok((v(7), t(0))));
    assert!(generator.module.code.is_empty());
}

#[test]
fn operand_must_come_before_its_user() {
    let mut generator = generator_for(vec![], TargetInfo::new());
    let function = function_of(vec![
        Expression::Load { pointer: e(0) },
        Expression::Binary { op: BinaryOperator::Add, left: e(2), right: e(0) },
        float(1.0),
        Expression::Constant(0),
    ]);
    let location = state(&function);
    for expr in 0..2 {
        assert_eq!(
            generator.eval_cached_expr(Some(&location), e(expr)),
            Err(Halt::Fault(Fault::DanglingHandle))
        );
    }
    assert_eq!(
        generator.eval_cached_expr(Some(&location), e(3)),
        Err(Halt::Fault(Fault::DanglingHandle))
    );
    assert_eq!(
        generator.eval_cached_expr(Some(&location), e(4)),
        Err(Halt::Fault(Fault::DanglingHandle))
    );
}

#[test]
fn expression_that_is_not_lowered_faults_when_reached() {
    let mut generator = generator_for(vec![], TargetInfo::new());
    let function = function_of(vec![
        Expression::Other(OtherExpression::Math),
        float(1.0),
        Expression::Binary { op: BinaryOperator::Add, left: e(1), right: e(0) },
    ]);
    let location = state(&function);
    assert_eq!(generator.eval_cached_expr(Some(&location), e(1)), Ok((v(0), t(0))));
    assert_eq!(
        generator.eval_cached_expr(Some(&location), e(2)),
        Err(Halt::Fault(Fault::NotImplemented))
    );
    assert_eq!(generator.module.code.len(), 1);
}

#[test]
fn struct_composed_without_its_table_is_a_fault() {
    let mut generator = generator_for(padded_struct(), float_target());
    let lowered = generator.eval_type(Span::undefined(), t(1)).unwrap();
    generator.struct_maps.clear();
    generator.type_cache.insert(1, lowered);
    let function = function_of(vec![Expression::Compose { ty: t(1), components: vec![] }]);
    assert_eq!(
        generator.eval_cached_expr(Some(&state(&function)), e(0)),
        Err(Halt::Fault(Fault::UnmappedStruct))
    );
}

#[test]
fn every_member_through_a_pointer_passes_over_padding() {
    let mut types = padded_struct();
    types.push(TypeInner::Pointer { base: t(1), space: AddressSpace::Private });
    let mut generator = generator_for(types, float_target());
    let function = function_of(vec![
        Expression::LocalVariable(0),
        Expression::AccessIndex { base: e(0), index: 0 },
        Expression::AccessIndex { base: e(0), index: 1 },
        Expression::AccessIndex { base: e(0), index: 2 },
        Expression::Load { pointer: e(3) },
        Expression::AccessIndex { base: e(0), index: 3 },
    ]);
    let location = with_local(&function, v(40), t(2));
    for (member, slot) in [(0usize, 0u32), (1, 1), (2, 3)] {
        let before = generator.module.code.len();
        let lowered = generator.eval_cached_expr(Some(&location), e(1 + member));
        assert_eq!(lowered, Ok((v(before + 2), t(3))));
        assert_eq!(generator.module.code[before].inst, Inst::ConstU32(slot));
        assert_eq!(generator.module.code[before + 1].inst, Inst::ConstU64(0));
        assert!(matches!(
            generator.module.code[before + 2].inst,
            Inst::ElementPointer { base, zero, index, .. }
                if base == v(40) && zero == v(before + 1) && index == v(before)
        ));
    }
    assert_eq!(type_at(&generator, 3), TypeInner::Pointer { base: t(0), space: AddressSpace::Private });
    assert_eq!(generator.eval_cached_expr(Some(&location), e(4)), Ok((v(9), t(0))));
    assert_eq!(generator.module.code[9].inst, Inst::Load { ty: NativeType::Float, pointer: v(8) });
    assert_eq!(
        generator.eval_cached_expr(Some(&location), e(5)),
        Err(Halt::Fault(Fault::IndexOutOfRange))
    );
}

#[test]
fn pointee_is_lowered_before_its_member_is_looked_up() {
    let mut types = padded_struct();
    types.push(TypeInner::Pointer { base: t(1), space: AddressSpace::Private });
    let mut generator = generator_for(types, TargetInfo::new());
    let function = function_of(vec![
        Expression::LocalVariable(0),
        Expression::AccessIndex { base: e(0), index: 2 },
    ]);
    let location = with_local(&function, v(40), t(2));
    assert_eq!(
        generator.eval_cached_expr(Some(&location), e(1)),
        Err(Halt::UnknownLayout(NativeType::Float))
    );
    assert!(generator.module.code.is_empty());
}

#[test]
fn struct_value_without_its_table_is_a_fault() {
    let mut generator = generator_for(padded_struct(), float_target());
    let function = function_of(vec![
        Expression::FunctionArgument(0),
        Expression::AccessIndex { base: e(0), index: 1 },
    ]);
    let location = FunctionState {
        src_function: &function,
        locals: Vec::new(),
        params: vec![(v(40), t(1))],
    };
    assert_eq!(
        generator.eval_cached_expr(Some(&location), e(1)),
        Err(Halt::Fault(Fault::UnmappedStruct))
    );
}
