use shader_lower::codegen::error::{Error, Fault, Halt, Info};
use shader_lower::codegen::native::{Members, NativeType};
use shader_lower::codegen::target::TargetInfo;
use shader_lower::codegen::Generator;
use shader_lower::ir::{
    AddressSpace, ArraySize, ImageClass, ImageDimension, Scalar, ScalarKind, Span, SrcModule,
    StorageFormat, StructMember, Type, TypeHandle, TypeInner, VectorSize,
};

const F32: Scalar = Scalar { kind: ScalarKind::Float, width: 4 };

fn anonymous(inner: TypeInner) -> Type {
    Type { name: None, inner }
}

fn generator_with(types: Vec<TypeInner>, target: TargetInfo) -> Generator {
    let mut src = SrcModule::new();
    for (i, inner) in types.into_iter().enumerate() {
        let handle = src.types.insert(anonymous(inner), Span::new(i as u32, i as u32 + 1));
        assert_eq!(handle, Some(TypeHandle(i)));
    }
    Generator::new(src, "types.wgsl", target)
}

fn members_of(list: &[NativeType]) -> Members {
    let mut members = Members::End;
    for ty in list.iter().rev() {
        members = Members::Then(Box::new(ty.duplicate()), Box::new(members));
    }
    members
}

fn member(ty: usize, offset: u32) -> StructMember {
    StructMember { name: None, ty: TypeHandle(ty), offset }
}

fn error(info: Info, span: Span) -> Halt {
    Halt::Error(Error { info, span })
}

#[test]
fn scalars_lower_by_kind_and_width() {
    let generator = generator_with(vec![], TargetInfo::new());
    let span = Span::new(7, 9);
    let lower = |kind, width| generator.eval_scalar_type(span, Scalar { kind, width });
    assert_eq!(lower(ScalarKind::Bool, 1), Ok(NativeType::Int(1)));
    assert_eq!(lower(ScalarKind::Bool, 4), Ok(NativeType::Int(1)));
    assert_eq!(lower(ScalarKind::Float, 2), Ok(NativeType::Half));
    assert_eq!(lower(ScalarKind::Float, 4), Ok(NativeType::Float));
    assert_eq!(lower(ScalarKind::Float, 8), Ok(NativeType::Double));
    assert_eq!(lower(ScalarKind::Float, 16), Ok(NativeType::Quad));
    assert_eq!(lower(ScalarKind::Sint, 4), Ok(NativeType::Int(32)));
    assert_eq!(lower(ScalarKind::Uint, 8), Ok(NativeType::Int(64)));
    assert_eq!(lower(ScalarKind::Uint, 1), Ok(NativeType::Int(8)));
    assert_eq!(lower(ScalarKind::Sint, 255), Ok(NativeType::Int(2040)));
}

#[test]
fn float_of_odd_width_is_refused() {
    let generator = generator_with(vec![], TargetInfo::new());
    let span = Span::new(7, 9);
    assert_eq!(
        generator.eval_scalar_type(span, Scalar { kind: ScalarKind::Float, width: 3 }),
        Err(error(Info::InvalidFloatSize(3), span))
    );
    assert_eq!(
        generator.eval_scalar_type(span, Scalar { kind: ScalarKind::Float, width: 0 }),
        Err(error(Info::InvalidFloatSize(0), span))
    );
}

#[test]
fn abstract_scalars_are_illegal() {
    let generator = generator_with(vec![], TargetInfo::new());
    let span = Span::new(1, 2);
    for kind in [ScalarKind::AbstractInt, ScalarKind::AbstractFloat] {
        let scalar = Scalar { kind, width: 8 };
        assert_eq!(
            generator.eval_scalar_type(span, scalar),
            Err(error(Info::IllegalScalar(scalar), span))
        );
    }
}

#[test]
fn vectors_and_matrices_lower_to_vectors() {
    let mut generator = generator_with(
        vec![
            TypeInner::Vector { size: VectorSize::Tri, scalar: F32 },
            TypeInner::Matrix { columns: VectorSize::Tri, rows: VectorSize::Bi, scalar: F32 },
            TypeInner::Atomic(Scalar { kind: ScalarKind::Uint, width: 4 }),
        ],
        TargetInfo::new(),
    );
    let span = Span::undefined();
    assert_eq!(
        generator.eval_cached_type(span, TypeHandle(0)),
        Ok(NativeType::vector(NativeType::Float, 3))
    );
    assert_eq!(
        generator.eval_cached_type(span, TypeHandle(1)),
        Ok(NativeType::vector(NativeType::Float, 6))
    );
    assert_eq!(generator.eval_cached_type(span, TypeHandle(2)), Ok(NativeType::Int(32)));
    assert_eq!(generator.type_cache.len(), 3);
    assert_eq!(generator.type_cache[&1], NativeType::vector(NativeType::Float, 6));
}

#[test]
fn matrix_storage_is_an_array_of_columns() {
    let mut generator = generator_with(
        vec![
            TypeInner::Matrix { columns: VectorSize::Tri, rows: VectorSize::Bi, scalar: F32 },
            TypeInner::Vector { size: VectorSize::Quad, scalar: F32 },
        ],
        TargetInfo::new(),
    );
    let span = Span::undefined();
    assert_eq!(
        generator.eval_cached_pointer_type(span, TypeHandle(0)),
        Ok(NativeType::array(NativeType::vector(NativeType::Float, 2), 3))
    );
    assert_eq!(
        generator.eval_pointer_type(span, TypeHandle(0)),
        Ok(Some(NativeType::array(NativeType::vector(NativeType::Float, 2), 3)))
    );
    assert_eq!(generator.eval_pointer_type(span, TypeHandle(1)), Ok(None));
    assert_eq!(
        generator.eval_cached_pointer_type(span, TypeHandle(1)),
        Ok(NativeType::vector(NativeType::Float, 4))
    );
    assert!(generator.type_cache.is_empty());
    assert_eq!(generator.pointer_type_cache.len(), 2);
    assert_eq!(
        generator.eval_cached_type(span, TypeHandle(0)),
        Ok(NativeType::vector(NativeType::Float, 6))
    );
}

#[test]
fn storage_of_a_cached_value_type_is_not_cached_again() {
    let mut generator = generator_with(
        vec![TypeInner::Vector { size: VectorSize::Quad, scalar: F32 }],
        TargetInfo::new(),
    );
    let span = Span::undefined();
    generator.eval_cached_type(span, TypeHandle(0)).unwrap();
    assert_eq!(
        generator.eval_cached_pointer_type(span, TypeHandle(0)),
        Ok(NativeType::vector(NativeType::Float, 4))
    );
    assert!(generator.pointer_type_cache.is_empty());
}

#[test]
fn pointers_lower_to_the_opaque_pointer() {
    let mut generator = generator_with(
        vec![
            TypeInner::Scalar(F32),
            TypeInner::Pointer { base: TypeHandle(0), space: AddressSpace::Uniform },
            TypeInner::ValuePointer {
                size: Some(VectorSize::Bi),
                scalar: F32,
                space: AddressSpace::Storage { access: 3 },
            },
        ],
        TargetInfo::new(),
    );
    let span = Span::undefined();
    assert_eq!(generator.eval_cached_type(span, TypeHandle(1)), Ok(NativeType::Pointer));
    assert_eq!(generator.eval_cached_type(span, TypeHandle(2)), Ok(NativeType::Pointer));
}

#[test]
fn arrays_lower_with_their_length() {
    let mut generator = generator_with(
        vec![
            TypeInner::Scalar(F32),
            TypeInner::Array { base: TypeHandle(0), size: ArraySize::Constant(5), stride: 4 },
            TypeInner::Array { base: TypeHandle(0), size: ArraySize::Dynamic, stride: 4 },
            TypeInner::Array { base: TypeHandle(1), size: ArraySize::Constant(2), stride: 20 },
        ],
        TargetInfo::new(),
    );
    let span = Span::undefined();
    assert_eq!(
        generator.eval_cached_type(span, TypeHandle(1)),
        Ok(NativeType::array(NativeType::Float, 5))
    );
    assert_eq!(
        generator.eval_cached_type(span, TypeHandle(2)),
        Ok(NativeType::array(NativeType::Float, 0))
    );
    assert_eq!(
        generator.eval_cached_type(span, TypeHandle(3)),
        Ok(NativeType::array(NativeType::array(NativeType::Float, 5), 2))
    );
}

#[test]
fn struct_with_a_gap_gets_one_padding_member() {
    let mut target = TargetInfo::new();
    target.describe(NativeType::Float, 4, 4);
    let mut generator = generator_with(
        vec![
            TypeInner::Scalar(F32),
            TypeInner::Struct {
                members: vec![member(0, 0), member(0, 4), member(0, 16)],
                span: 20,
            },
        ],
        target,
    );
    let lowered = generator.eval_cached_type(Span::undefined(), TypeHandle(1));
    assert_eq!(
        lowered,
        Ok(NativeType::Struct {
            members: members_of(&[
                NativeType::Float,
                NativeType::Float,
                NativeType::Int(64),
                NativeType::Float,
            ]),
        })
    );
    assert_eq!(generator.struct_maps[&1], vec![0, 1, 3]);
}

#[test]
fn struct_without_gaps_gets_no_padding() {
    let mut target = TargetInfo::new();
    target.describe(NativeType::Float, 4, 4);
    target.describe(NativeType::vector(NativeType::Float, 2), 8, 8);
    let mut generator = generator_with(
        vec![
            TypeInner::Scalar(F32),
            TypeInner::Vector { size: VectorSize::Bi, scalar: F32 },
            TypeInner::Struct { members: vec![member(1, 0), member(0, 8)], span: 12 },
        ],
        target,
    );
    assert_eq!(
        generator.eval_cached_type(Span::undefined(), TypeHandle(2)),
        Ok(NativeType::Struct {
            members: members_of(&[NativeType::vector(NativeType::Float, 2), NativeType::Float]),
        })
    );
    assert_eq!(generator.struct_maps[&2], vec![0, 1]);
}

#[test]
fn struct_that_starts_late_is_padded_in_front() {
    let mut target = TargetInfo::new();
    target.describe(NativeType::Int(32), 4, 4);
    let mut generator = generator_with(
        vec![
            TypeInner::Scalar(Scalar { kind: ScalarKind::Sint, width: 4 }),
            TypeInner::Struct { members: vec![member(0, 3), member(0, 7), member(0, 12)], span: 16 },
        ],
        target,
    );
    assert_eq!(
        generator.eval_cached_type(Span::undefined(), TypeHandle(1)),
        Ok(NativeType::Struct {
            members: members_of(&[
                NativeType::Int(24),
                NativeType::Int(32),
                NativeType::Int(32),
                NativeType::Int(8),
                NativeType::Int(32),
            ]),
        })
    );
    assert_eq!(generator.struct_maps[&1], vec![1, 2, 4]);
}

#[test]
fn empty_struct_lowers_to_an_empty_struct() {
    let mut generator =
        generator_with(vec![TypeInner::Struct { members: vec![], span: 0 }], TargetInfo::new());
    assert_eq!(
        generator.eval_cached_type(Span::undefined(), TypeHandle(0)),
        Ok(NativeType::Struct { members: Members::End })
    );
    assert_eq!(generator.struct_maps[&0], Vec::<u32>::new());
}

#[test]
fn struct_member_of_unknown_layout_stops_the_lowering() {
    let mut generator = generator_with(
        vec![
            TypeInner::Scalar(F32),
            TypeInner::Struct { members: vec![member(0, 0)], span: 4 },
        ],
        TargetInfo::new(),
    );
    assert_eq!(
        generator.eval_cached_type(Span::undefined(), TypeHandle(1)),
        Err(Halt::UnknownLayout(NativeType::Float))
    );
    assert!(!generator.struct_maps.contains_key(&1));
    assert!(!generator.type_cache.contains_key(&1));
    assert!(generator.type_cache.contains_key(&0));
}

#[test]
fn first_description_of_a_layout_counts() {
    let mut target = TargetInfo::new();
    target.describe(NativeType::Float, 4, 4);
    target.describe(NativeType::Float, 8, 16);
    target.describe(NativeType::vector(NativeType::Float, 3), 16, 16);
    assert_eq!(target.abi_size_of(&NativeType::Float), Some(4));
    assert_eq!(target.preferred_alignment_of(&NativeType::Float), Some(4));
    assert_eq!(target.abi_size_of(&NativeType::vector(NativeType::Float, 3)), Some(16));
    assert_eq!(target.abi_size_of(&NativeType::vector(NativeType::Float, 2)), None);
    assert_eq!(target.preferred_alignment_of(&NativeType::Double), None);
}

#[test]
fn dangling_type_handle_is_a_fault() {
    let mut generator = generator_with(vec![TypeInner::Scalar(F32)], TargetInfo::new());
    assert_eq!(
        generator.eval_cached_type(Span::undefined(), TypeHandle(1)),
        Err(Halt::Fault(Fault::DanglingHandle))
    );
    assert_eq!(generator.get_pointee(TypeHandle(9)), Err(Halt::Fault(Fault::DanglingHandle)));
}

#[test]
fn array_of_a_later_type_is_a_fault() {
    let mut src = SrcModule::new();
    src.types.insert(
        anonymous(TypeInner::Array {
            base: TypeHandle(0),
            size: ArraySize::Constant(1),
            stride: 4,
        }),
        Span::undefined(),
    );
    let mut generator = Generator::new(src, "types.wgsl", TargetInfo::new());
    assert_eq!(
        generator.eval_cached_type(Span::undefined(), TypeHandle(0)),
        Err(Halt::Fault(Fault::DanglingHandle))
    );
}

#[test]
fn pointee_of_a_pointer_is_its_base() {
    let mut generator = generator_with(
        vec![
            TypeInner::Scalar(F32),
            TypeInner::Pointer { base: TypeHandle(0), space: AddressSpace::WorkGroup },
            TypeInner::ValuePointer {
                size: Some(VectorSize::Tri),
                scalar: F32,
                space: AddressSpace::Function,
            },
            TypeInner::ValuePointer { size: None, scalar: F32, space: AddressSpace::Private },
        ],
        TargetInfo::new(),
    );
    assert_eq!(generator.get_pointee(TypeHandle(0)), Ok(None));
    assert_eq!(
        generator.get_pointee(TypeHandle(1)),
        Ok(Some((TypeHandle(0), AddressSpace::WorkGroup)))
    );
    assert_eq!(
        generator.get_pointee(TypeHandle(2)),
        Ok(Some((TypeHandle(4), AddressSpace::Function)))
    );
    assert_eq!(
        generator.module.src.types.try_get(TypeHandle(4)),
        Some(&anonymous(TypeInner::Vector { size: VectorSize::Tri, scalar: F32 }))
    );
    assert_eq!(generator.module.src.types.get_span(TypeHandle(4)), Span::new(2, 3));
    assert_eq!(
        generator.get_pointee(TypeHandle(3)),
        Ok(Some((TypeHandle(0), AddressSpace::Private)))
    );
    assert_eq!(generator.module.src.types.len(), 5);
}

#[test]
fn item_types_follow_the_shape() {
    let mut generator = generator_with(
        vec![
            TypeInner::Scalar(F32),
            TypeInner::Vector { size: VectorSize::Tri, scalar: F32 },
            TypeInner::Matrix { columns: VectorSize::Bi, rows: VectorSize::Tri, scalar: F32 },
            TypeInner::Array { base: TypeHandle(2), size: ArraySize::Constant(4), stride: 32 },
            TypeInner::Struct { members: vec![member(0, 0), member(3, 16)], span: 144 },
        ],
        TargetInfo::new(),
    );
    let span = Span::new(40, 44);
    assert_eq!(generator.item_type(span, TypeHandle(1), None), Ok(TypeHandle(0)));
    assert_eq!(generator.item_type(span, TypeHandle(2), Some(1)), Ok(TypeHandle(1)));
    assert_eq!(generator.item_type(span, TypeHandle(3), None), Ok(TypeHandle(2)));
    assert_eq!(generator.item_type(span, TypeHandle(4), Some(1)), Ok(TypeHandle(3)));
    assert_eq!(generator.item_type(span, TypeHandle(4), Some(0)), Ok(TypeHandle(0)));
    assert_eq!(
        generator.item_type(span, TypeHandle(4), None),
        Err(error(Info::NonConstantIndex, span))
    );
    assert_eq!(
        generator.item_type(span, TypeHandle(4), Some(2)),
        Err(Halt::Fault(Fault::IndexOutOfRange))
    );
    assert_eq!(
        generator.item_type(span, TypeHandle(0), Some(0)),
        Err(error(Info::NotIndexable(TypeHandle(0)), span))
    );
    assert_eq!(generator.module.src.types.len(), 5);
}

#[test]
fn inserting_an_equal_type_hands_back_the_first_handle() {
    let mut src = SrcModule::new();
    let named = Type { name: Some("Light".to_string()), inner: TypeInner::Scalar(F32) };
    let first = src.types.insert(named.clone(), Span::new(1, 2));
    let plain = src.types.insert(anonymous(TypeInner::Scalar(F32)), Span::new(3, 4));
    let again = src.types.insert(named, Span::new(5, 6));
    let record = src.types.insert(
        anonymous(TypeInner::Struct { members: vec![member(0, 0)], span: 4 }),
        Span::new(7, 8),
    );
    let record_again = src.types.insert(
        anonymous(TypeInner::Struct { members: vec![member(0, 0)], span: 4 }),
        Span::new(9, 10),
    );
    let other_record = src.types.insert(
        anonymous(TypeInner::Struct { members: vec![member(1, 0)], span: 4 }),
        Span::new(11, 12),
    );
    assert_eq!(
        (first, plain, again),
        (Some(TypeHandle(0)), Some(TypeHandle(1)), Some(TypeHandle(0)))
    );
    assert_eq!(
        (record, record_again, other_record),
        (Some(TypeHandle(2)), Some(TypeHandle(2)), Some(TypeHandle(3)))
    );
    assert_eq!(src.types.len(), 4);
    assert_eq!(src.types.get_span(TypeHandle(0)), Span::new(1, 2));
    assert_eq!(src.types.get_span(TypeHandle(2)), Span::new(7, 8));
    assert_eq!(src.types.get_span(TypeHandle(3)), Span::new(11, 12));
    assert_eq!(src.types.try_get(TypeHandle(1)), Some(&anonymous(TypeInner::Scalar(F32))));
    assert_eq!(src.types.try_get(TypeHandle(4)), None);
    assert_eq!(src.types.get_span(TypeHandle(17)), Span::undefined());
}

#[test]
fn native_types_compare_by_structure() {
    let a = NativeType::Struct {
        members: members_of(&[NativeType::Int(8), NativeType::array(NativeType::Half, 2)]),
    };
    let b = a.duplicate();
    assert!(a.same(&b));
    assert_eq!(a, b);
    assert!(!a.same(&NativeType::Struct { members: members_of(&[NativeType::Int(8)]) }));
    assert!(!NativeType::Int(8).same(&NativeType::Int(16)));
    assert!(!NativeType::vector(NativeType::Float, 2).same(&NativeType::array(NativeType::Float, 2)));
    let function = NativeType::Function {
        result: Box::new(NativeType::Void),
        params: members_of(&[NativeType::Pointer]),
    };
    assert!(function.same(&function.duplicate()));
    assert!(!function.same(&NativeType::Void));
}

#[test]
fn types_that_are_not_lowered_are_not_implemented() {
    let image = |format| TypeInner::Image {
        dim: ImageDimension::D2,
        arrayed: false,
        class: ImageClass::Storage { format, access: 1 },
    };
    let mut generator = generator_with(
        vec![
            image(StorageFormat::R32Float),
            image(StorageFormat::Rgba8Unorm),
            TypeInner::Sampler { comparison: false },
            TypeInner::AccelerationStructure,
            TypeInner::RayQuery,
            TypeInner::BindingArray { base: TypeHandle(0), size: ArraySize::Dynamic },
            TypeInner::Pointer { base: TypeHandle(0), space: AddressSpace::Handle },
            TypeInner::Array { base: TypeHandle(2), size: ArraySize::Constant(2), stride: 8 },
        ],
        TargetInfo::new(),
    );
    let span = Span::new(3, 4);
    for ty in [0, 1, 2, 3, 4, 5, 7] {
        assert_eq!(
            generator.eval_cached_type(span, TypeHandle(ty)),
            Err(Halt::Fault(Fault::NotImplemented))
        );
    }
    assert_eq!(generator.eval_cached_type(span, TypeHandle(6)), Ok(NativeType::Pointer));
    assert_eq!(
        generator.item_type(span, TypeHandle(0), Some(0)),
        Err(error(Info::NotIndexable(TypeHandle(0)), span))
    );
    assert_eq!(generator.get_pointee(TypeHandle(2)), Ok(None));
}
