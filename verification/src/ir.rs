//! The source IR: an arena-based, typed program graph.
//!
//! Entities refer to each other through handles, which are plain indices into
//! the arena that owns the entity. The arenas are those of the crate `naga`:
//! types live in a [`TypeArena`], where inserting a type that is already
//! present hands back the existing handle, and everything else in an
//! [`ItemArena`].

use vstd::prelude::*;

verus! {

/// A half-open range of bytes in the shader source, for diagnostics.
#[derive(Clone, Copy, Debug, PartialEq, Eq, Structural, Hash, Default)]
pub struct Span {
    pub start: u32,
    pub end: u32,
}

impl Span {
    /// The span of an entity that does not come from source text.
    pub fn undefined() -> (span: Span)
        ensures
            span == undefined_span(),
    {
        Span { start: 0, end: 0 }
    }

    pub fn new(start: u32, end: u32) -> (span: Span)
        ensures
            span == (Span { start, end }),
    {
        Span { start, end }
    }
}

/// The span of an entity that does not come from source text.
pub open spec fn undefined_span() -> Span {
    Span { start: 0, end: 0 }
}

/// A reference to a type in the module's type arena.
#[derive(Clone, Copy, Debug, PartialEq, Eq, Structural, Hash)]
pub struct TypeHandle(pub usize);

/// A reference to an expression in a function's expression arena, or in the
/// module's arena of global expressions.
#[derive(Clone, Copy, Debug, PartialEq, Eq, Structural, Hash)]
pub struct ExprHandle(pub usize);

/// How the bits of a scalar are interpreted.
#[derive(Clone, Copy, Debug, PartialEq, Eq, Structural, Hash)]
pub enum ScalarKind {
    Sint,
    Uint,
    Float,
    Bool,
    /// An integer whose width has not been decided yet.
    AbstractInt,
    /// A float whose width has not been decided yet.
    AbstractFloat,
}

/// A scalar type: its kind and its width in bytes.
#[derive(Clone, Copy, Debug, PartialEq, Eq, Structural, Hash)]
pub struct Scalar {
    pub kind: ScalarKind,
    pub width: u8,
}

/// Number of components of a vector, or of rows or columns of a matrix.
#[derive(Clone, Copy, Debug, PartialEq, Eq, Structural, Hash)]
pub enum VectorSize {
    Bi,
    Tri,
    Quad,
}

impl VectorSize {
    /// The number of components: 2, 3 or 4.
    pub open spec fn count(self) -> u32 {
        match self {
            VectorSize::Bi => 2,
            VectorSize::Tri => 3,
            VectorSize::Quad => 4,
        }
    }

    /// The number of components: 2, 3 or 4.
    pub fn lanes(self) -> (n: u32)
        ensures
            n == self.count(),
    {
        match self {
            VectorSize::Bi => 2,
            VectorSize::Tri => 3,
            VectorSize::Quad => 4,
        }
    }
}

/// One lane of a swizzle pattern.
#[derive(Clone, Copy, Debug, PartialEq, Eq, Structural, Hash)]
pub enum SwizzleComponent {
    X,
    Y,
    Z,
    W,
}

impl SwizzleComponent {
    pub open spec fn position(self) -> nat {
        match self {
            SwizzleComponent::X => 0,
            SwizzleComponent::Y => 1,
            SwizzleComponent::Z => 2,
            SwizzleComponent::W => 3,
        }
    }

    /// The lane that the component selects: 0 for `X` up to 3 for `W`.
    pub fn index(self) -> (n: usize)
        ensures
            n == self.position(),
    {
        match self {
            SwizzleComponent::X => 0,
            SwizzleComponent::Y => 1,
            SwizzleComponent::Z => 2,
            SwizzleComponent::W => 3,
        }
    }
}

/// Where a variable lives. The lowering only carries it from a pointer to
/// the pointers derived from it.
#[derive(Clone, Copy, Debug, PartialEq, Eq, Structural, Hash)]
pub enum AddressSpace {
    Function,
    Private,
    WorkGroup,
    Uniform,
    /// Storage buffer data, with its access flags.
    Storage { access: u32 },
    Handle,
    PushConstant,
}

/// Length of an array.
#[derive(Clone, Copy, Debug, PartialEq, Eq, Structural, Hash)]
pub enum ArraySize {
    Constant(u32),
    Dynamic,
}

/// The dimensionality of an image.
#[derive(Clone, Copy, Debug, PartialEq, Eq, Structural, Hash)]
pub enum ImageDimension {
    D1,
    D2,
    D3,
    Cube,
}

/// The format of the texels of a storage image.
#[derive(Clone, Copy, Debug, PartialEq, Eq, Structural, Hash)]
pub enum StorageFormat {
    R8Unorm,
    R8Snorm,
    R8Uint,
    R8Sint,
    R16Uint,
    R16Sint,
    R16Float,
    Rg8Unorm,
    Rg8Snorm,
    Rg8Uint,
    Rg8Sint,
    R32Uint,
    R32Sint,
    R32Float,
    Rg16Uint,
    Rg16Sint,
    Rg16Float,
    Rgba8Unorm,
    Rgba8Snorm,
    Rgba8Uint,
    Rgba8Sint,
    Bgra8Unorm,
    Rgb10a2Uint,
    Rgb10a2Unorm,
    Rg11b10Float,
    Rg32Uint,
    Rg32Sint,
    Rg32Float,
    Rgba16Uint,
    Rgba16Sint,
    Rgba16Float,
    Rgba32Uint,
    Rgba32Sint,
    Rgba32Float,
    R16Unorm,
    R16Snorm,
    Rg16Unorm,
    Rg16Snorm,
    Rgba16Unorm,
    Rgba16Snorm,
}

/// What an image holds.
#[derive(Clone, Copy, Debug, PartialEq, Eq, Structural, Hash)]
pub enum ImageClass {
    Sampled { kind: ScalarKind, multi: bool },
    Depth { multi: bool },
    /// A storage image, with its access flags.
    Storage { format: StorageFormat, access: u32 },
}

/// A member of a struct type, at a byte offset from the struct's start.
#[derive(Clone, Debug, PartialEq, Eq, Hash)]
pub struct StructMember {
    pub name: Option<String>,
    pub ty: TypeHandle,
    pub offset: u32,
}

/// The shape of a type. The shapes from `Image` on are part of the IR, but
/// lowering them is not implemented.
#[derive(Clone, Debug, PartialEq, Eq, Hash)]
pub enum TypeInner {
    Scalar(Scalar),
    Vector { size: VectorSize, scalar: Scalar },
    Matrix { columns: VectorSize, rows: VectorSize, scalar: Scalar },
    Atomic(Scalar),
    Pointer { base: TypeHandle, space: AddressSpace },
    ValuePointer { size: Option<VectorSize>, scalar: Scalar, space: AddressSpace },
    Array { base: TypeHandle, size: ArraySize, stride: u32 },
    Struct { members: Vec<StructMember>, span: u32 },
    Image { dim: ImageDimension, arrayed: bool, class: ImageClass },
    Sampler { comparison: bool },
    AccelerationStructure,
    RayQuery,
    BindingArray { base: TypeHandle, size: ArraySize },
}

/// A type of the module: a shape with an optional name.
#[derive(Clone, Debug, PartialEq, Eq, Hash)]
pub struct Type {
    pub name: Option<String>,
    pub inner: TypeInner,
}

/// A literal scalar. Floats are held as their IEEE 754 bit patterns.
#[derive(Clone, Copy, Debug, PartialEq, Eq, Structural, Hash)]
pub enum Literal {
    F64(u64),
    F32(u32),
    U32(u32),
    I32(i32),
    I64(i64),
    Bool(bool),
    AbstractInt(i64),
    AbstractFloat(u64),
}

/// A binary operator of the IR.
#[derive(Clone, Copy, Debug, PartialEq, Eq, Structural, Hash)]
pub enum BinaryOperator {
    Add,
    Subtract,
    Multiply,
    Divide,
    Modulo,
    Equal,
    NotEqual,
    Less,
    LessEqual,
    Greater,
    GreaterEqual,
    And,
    ExclusiveOr,
    InclusiveOr,
    LogicalAnd,
    LogicalOr,
    ShiftLeft,
    ShiftRight,
}

/// The kinds of expression that are part of the IR, but whose lowering is
/// not implemented.
#[derive(Clone, Copy, Debug, PartialEq, Eq, Structural, Hash)]
pub enum OtherExpression {
    ImageSample,
    ImageLoad,
    ImageQuery,
    Unary,
    Select,
    Derivative,
    Relational,
    Math,
    As,
    CallResult,
    AtomicResult,
    WorkGroupUniformLoadResult,
    ArrayLength,
    RayQueryProceedResult,
    RayQueryGetIntersection,
}

/// The kinds of statement that are part of the IR, but whose lowering is
/// not implemented.
#[derive(Clone, Copy, Debug, PartialEq, Eq, Structural, Hash)]
pub enum OtherStatement {
    If,
    Switch,
    Loop,
    Break,
    Continue,
    Kill,
    Barrier,
    ImageStore,
    Atomic,
    WorkGroupUniformLoad,
    Call,
    RayQuery,
}

/// An expression of the IR. Operands are handles into the arena that holds
/// the expression itself.
#[derive(Clone, Debug, PartialEq, Eq, Hash)]
pub enum Expression {
    Literal(Literal),
    /// The value of the module constant with this index.
    Constant(usize),
    ZeroValue(TypeHandle),
    Compose { ty: TypeHandle, components: Vec<ExprHandle> },
    Access { base: ExprHandle, index: ExprHandle },
    AccessIndex { base: ExprHandle, index: u32 },
    Splat { size: VectorSize, value: ExprHandle },
    Swizzle { size: VectorSize, vector: ExprHandle, pattern: [SwizzleComponent; 4] },
    FunctionArgument(u32),
    /// A pointer to the global variable with this index.
    GlobalVariable(usize),
    /// A pointer to the local variable with this index.
    LocalVariable(usize),
    Load { pointer: ExprHandle },
    Binary { op: BinaryOperator, left: ExprHandle, right: ExprHandle },
    /// An expression of a kind that is not lowered.
    Other(OtherExpression),
}

/// A statement of a function body.
#[derive(Debug, PartialEq, Eq, Hash)]
pub enum Statement {
    /// Evaluate the expressions from `start` up to, but not including,
    /// `end`, in order.
    Emit { start: usize, end: usize },
    Block(Block),
    Return { value: Option<ExprHandle> },
    Store { pointer: ExprHandle, value: ExprHandle },
    /// A statement of a kind that is not lowered.
    Other(OtherStatement),
}

/// A sequence of statements, each with its span.
#[derive(Debug, PartialEq, Eq, Hash)]
pub struct Block {
    pub body: Vec<Statement>,
    pub span_info: Vec<Span>,
}

/// A module-scope constant, defined by a global expression.
#[derive(Clone, Debug, PartialEq, Eq, Hash)]
pub struct Constant {
    pub name: Option<String>,
    pub ty: TypeHandle,
    pub init: ExprHandle,
}

/// A module-scope variable.
#[derive(Clone, Debug, PartialEq, Eq, Hash)]
pub struct GlobalVariable {
    pub name: Option<String>,
    pub space: AddressSpace,
    pub ty: TypeHandle,
    /// Initial value, in the module's arena of global expressions.
    pub init: Option<ExprHandle>,
}

/// A variable of a function.
#[derive(Clone, Debug, PartialEq, Eq, Hash)]
pub struct LocalVariable {
    pub name: Option<String>,
    pub ty: TypeHandle,
    /// Initial value, in the function's expression arena.
    pub init: Option<ExprHandle>,
}

#[derive(Clone, Debug, PartialEq, Eq, Hash)]
pub struct FunctionArgument {
    pub name: Option<String>,
    pub ty: TypeHandle,
}

#[derive(Clone, Copy, Debug, PartialEq, Eq, Structural, Hash)]
pub struct FunctionResult {
    pub ty: TypeHandle,
}

/// The arena of the crate `naga`.
#[verifier::external_type_specification]
#[verifier::external_body]
#[verifier::reject_recursive_types(T)]
pub struct ExArena<T>(naga::Arena<T>);

/// The expressions that an arena holds, in the order of their handles.
pub uninterp spec fn arena_expressions(arena: naga::Arena<Expression>) -> Seq<Expression>;

/// The constants that an arena holds, in the order of their handles.
pub uninterp spec fn arena_constants(arena: naga::Arena<Constant>) -> Seq<Constant>;

/// The global variables that an arena holds, in the order of their
/// handles.
pub uninterp spec fn arena_global_variables(arena: naga::Arena<GlobalVariable>) -> Seq<
    GlobalVariable,
>;

/// The local variables that an arena holds, in the order of their handles.
pub uninterp spec fn arena_local_variables(arena: naga::Arena<LocalVariable>) -> Seq<LocalVariable>;

/// The functions that an arena holds, in the order of their handles.
pub uninterp spec fn arena_functions(arena: naga::Arena<Function>) -> Seq<Function>;

/// What can be held in an arena. The arena is that of the crate `naga`;
/// what is said of it here is said, for each kind of item, of the calls
/// that the kind's functions make.
pub trait Item: Sized {
    /// The items that an arena holds, in the order of their handles: the
    /// item with the handle of index `i` stands at position `i`.
    spec fn held(arena: naga::Arena<Self>) -> Seq<Self>;

    /// An arena without items.
    fn new_arena() -> (arena: naga::Arena<Self>)
        ensures
            Self::held(arena) == Seq::<Self>::empty(),
    ;

    /// The number of items of the arena.
    fn count(arena: &naga::Arena<Self>) -> (len: usize)
        ensures
            len == Self::held(*arena).len(),
    ;

    /// The item with the handle of index `index`, if there is one.
    fn at(arena: &naga::Arena<Self>, index: usize) -> (item: Option<&Self>)
        ensures
            item == (if index < Self::held(*arena).len() {
                Some(&Self::held(*arena)[index as int])
            } else {
                None
            }),
    ;

    /// Makes `value` the last item of the arena and returns the index of
    /// its handle. The arena must have a handle left.
    fn append(arena: &mut naga::Arena<Self>, value: Self) -> (index: usize)
        requires
            Self::held(*old(arena)).len() < u32::MAX,
        ensures
            index == Self::held(*old(arena)).len(),
            Self::held(*final(arena)) == Self::held(*old(arena)).push(value),
    ;
}

/// Calls `naga::Arena::new`, which makes an arena without items.
#[verifier::external_body]
fn new_expressions() -> (arena: naga::Arena<Expression>)
    ensures
        arena_expressions(arena) == Seq::<Expression>::empty(),
{
    naga::Arena::new()
}

/// Calls `naga::Arena::len`, the number of items of the arena.
#[verifier::external_body]
fn count_expressions(arena: &naga::Arena<Expression>) -> (len: usize)
    ensures
        len == arena_expressions(*arena).len(),
{
    arena.len()
}

/// Calls `naga::Arena::iter` and takes the item at `index`. The iterator
/// hands out the items in the order of their handles, so this is the item
/// with the handle of that index, if there is one.
#[verifier::external_body]
fn expression_at(arena: &naga::Arena<Expression>, index: usize) -> (item: Option<&Expression>)
    ensures
        item == (if index < arena_expressions(*arena).len() {
            Some(&arena_expressions(*arena)[index as int])
        } else {
            None
        }),
{
    arena.iter().nth(index).map(|(_, item)| item)
}

/// Calls `naga::Arena::append` and takes the index of the handle that it
/// returns: `value` becomes the last item, and the handle is its own.
///
/// The call panics where the arena has no handle left for the item: an
/// arena of fewer than `u32::MAX` items always has one.
#[verifier::external_body]
fn append_expression(arena: &mut naga::Arena<Expression>, value: Expression) -> (index: usize)
    requires
        arena_expressions(*old(arena)).len() < u32::MAX,
    ensures
        index == arena_expressions(*old(arena)).len(),
        arena_expressions(*final(arena)) == arena_expressions(*old(arena)).push(value),
{
    arena.append(value, naga::Span::default()).index()
}

impl Item for Expression {
    open spec fn held(arena: naga::Arena<Expression>) -> Seq<Expression> {
        arena_expressions(arena)
    }

    fn new_arena() -> (arena: naga::Arena<Expression>) {
        new_expressions()
    }

    fn count(arena: &naga::Arena<Expression>) -> (len: usize) {
        count_expressions(arena)
    }

    fn at(arena: &naga::Arena<Expression>, index: usize) -> (item: Option<&Expression>) {
        expression_at(arena, index)
    }

    fn append(arena: &mut naga::Arena<Expression>, value: Expression) -> (index: usize) {
        append_expression(arena, value)
    }
}

/// Calls `naga::Arena::new`, which makes an arena without items.
#[verifier::external_body]
fn new_constants() -> (arena: naga::Arena<Constant>)
    ensures
        arena_constants(arena) == Seq::<Constant>::empty(),
{
    naga::Arena::new()
}

/// Calls `naga::Arena::len`, the number of items of the arena.
#[verifier::external_body]
fn count_constants(arena: &naga::Arena<Constant>) -> (len: usize)
    ensures
        len == arena_constants(*arena).len(),
{
    arena.len()
}

/// Calls `naga::Arena::iter` and takes the item at `index`. The iterator
/// hands out the items in the order of their handles, so this is the item
/// with the handle of that index, if there is one.
#[verifier::external_body]
fn constant_at(arena: &naga::Arena<Constant>, index: usize) -> (item: Option<&Constant>)
    ensures
        item == (if index < arena_constants(*arena).len() {
            Some(&arena_constants(*arena)[index as int])
        } else {
            None
        }),
{
    arena.iter().nth(index).map(|(_, item)| item)
}

/// Calls `naga::Arena::append` and takes the index of the handle that it
/// returns: `value` becomes the last item, and the handle is its own.
///
/// The call panics where the arena has no handle left for the item: an
/// arena of fewer than `u32::MAX` items always has one.
#[verifier::external_body]
fn append_constant(arena: &mut naga::Arena<Constant>, value: Constant) -> (index: usize)
    requires
        arena_constants(*old(arena)).len() < u32::MAX,
    ensures
        index == arena_constants(*old(arena)).len(),
        arena_constants(*final(arena)) == arena_constants(*old(arena)).push(value),
{
    arena.append(value, naga::Span::default()).index()
}

impl Item for Constant {
    open spec fn held(arena: naga::Arena<Constant>) -> Seq<Constant> {
        arena_constants(arena)
    }

    fn new_arena() -> (arena: naga::Arena<Constant>) {
        new_constants()
    }

    fn count(arena: &naga::Arena<Constant>) -> (len: usize) {
        count_constants(arena)
    }

    fn at(arena: &naga::Arena<Constant>, index: usize) -> (item: Option<&Constant>) {
        constant_at(arena, index)
    }

    fn append(arena: &mut naga::Arena<Constant>, value: Constant) -> (index: usize) {
        append_constant(arena, value)
    }
}

/// Calls `naga::Arena::new`, which makes an arena without items.
#[verifier::external_body]
fn new_global_variables() -> (arena: naga::Arena<GlobalVariable>)
    ensures
        arena_global_variables(arena) == Seq::<GlobalVariable>::empty(),
{
    naga::Arena::new()
}

/// Calls `naga::Arena::len`, the number of items of the arena.
#[verifier::external_body]
fn count_global_variables(arena: &naga::Arena<GlobalVariable>) -> (len: usize)
    ensures
        len == arena_global_variables(*arena).len(),
{
    arena.len()
}

/// Calls `naga::Arena::iter` and takes the item at `index`. The iterator
/// hands out the items in the order of their handles, so this is the item
/// with the handle of that index, if there is one.
#[verifier::external_body]
fn global_variable_at(arena: &naga::Arena<GlobalVariable>, index: usize) -> (item: Option<&GlobalVariable>)
    ensures
        item == (if index < arena_global_variables(*arena).len() {
            Some(&arena_global_variables(*arena)[index as int])
        } else {
            None
        }),
{
    arena.iter().nth(index).map(|(_, item)| item)
}

/// Calls `naga::Arena::append` and takes the index of the handle that it
/// returns: `value` becomes the last item, and the handle is its own.
///
/// The call panics where the arena has no handle left for the item: an
/// arena of fewer than `u32::MAX` items always has one.
#[verifier::external_body]
fn append_global_variable(arena: &mut naga::Arena<GlobalVariable>, value: GlobalVariable) -> (index: usize)
    requires
        arena_global_variables(*old(arena)).len() < u32::MAX,
    ensures
        index == arena_global_variables(*old(arena)).len(),
        arena_global_variables(*final(arena)) == arena_global_variables(*old(arena)).push(value),
{
    arena.append(value, naga::Span::default()).index()
}

impl Item for GlobalVariable {
    open spec fn held(arena: naga::Arena<GlobalVariable>) -> Seq<GlobalVariable> {
        arena_global_variables(arena)
    }

    fn new_arena() -> (arena: naga::Arena<GlobalVariable>) {
        new_global_variables()
    }

    fn count(arena: &naga::Arena<GlobalVariable>) -> (len: usize) {
        count_global_variables(arena)
    }

    fn at(arena: &naga::Arena<GlobalVariable>, index: usize) -> (item: Option<&GlobalVariable>) {
        global_variable_at(arena, index)
    }

    fn append(arena: &mut naga::Arena<GlobalVariable>, value: GlobalVariable) -> (index: usize) {
        append_global_variable(arena, value)
    }
}

/// Calls `naga::Arena::new`, which makes an arena without items.
#[verifier::external_body]
fn new_local_variables() -> (arena: naga::Arena<LocalVariable>)
    ensures
        arena_local_variables(arena) == Seq::<LocalVariable>::empty(),
{
    naga::Arena::new()
}

/// Calls `naga::Arena::len`, the number of items of the arena.
#[verifier::external_body]
fn count_local_variables(arena: &naga::Arena<LocalVariable>) -> (len: usize)
    ensures
        len == arena_local_variables(*arena).len(),
{
    arena.len()
}

/// Calls `naga::Arena::iter` and takes the item at `index`. The iterator
/// hands out the items in the order of their handles, so this is the item
/// with the handle of that index, if there is one.
#[verifier::external_body]
fn local_variable_at(arena: &naga::Arena<LocalVariable>, index: usize) -> (item: Option<&LocalVariable>)
    ensures
        item == (if index < arena_local_variables(*arena).len() {
            Some(&arena_local_variables(*arena)[index as int])
        } else {
            None
        }),
{
    arena.iter().nth(index).map(|(_, item)| item)
}

/// Calls `naga::Arena::append` and takes the index of the handle that it
/// returns: `value` becomes the last item, and the handle is its own.
///
/// The call panics where the arena has no handle left for the item: an
/// arena of fewer than `u32::MAX` items always has one.
#[verifier::external_body]
fn append_local_variable(arena: &mut naga::Arena<LocalVariable>, value: LocalVariable) -> (index: usize)
    requires
        arena_local_variables(*old(arena)).len() < u32::MAX,
    ensures
        index == arena_local_variables(*old(arena)).len(),
        arena_local_variables(*final(arena)) == arena_local_variables(*old(arena)).push(value),
{
    arena.append(value, naga::Span::default()).index()
}

impl Item for LocalVariable {
    open spec fn held(arena: naga::Arena<LocalVariable>) -> Seq<LocalVariable> {
        arena_local_variables(arena)
    }

    fn new_arena() -> (arena: naga::Arena<LocalVariable>) {
        new_local_variables()
    }

    fn count(arena: &naga::Arena<LocalVariable>) -> (len: usize) {
        count_local_variables(arena)
    }

    fn at(arena: &naga::Arena<LocalVariable>, index: usize) -> (item: Option<&LocalVariable>) {
        local_variable_at(arena, index)
    }

    fn append(arena: &mut naga::Arena<LocalVariable>, value: LocalVariable) -> (index: usize) {
        append_local_variable(arena, value)
    }
}

/// Calls `naga::Arena::new`, which makes an arena without items.
#[verifier::external_body]
fn new_functions() -> (arena: naga::Arena<Function>)
    ensures
        arena_functions(arena) == Seq::<Function>::empty(),
{
    naga::Arena::new()
}

/// Calls `naga::Arena::len`, the number of items of the arena.
#[verifier::external_body]
fn count_functions(arena: &naga::Arena<Function>) -> (len: usize)
    ensures
        len == arena_functions(*arena).len(),
{
    arena.len()
}

/// Calls `naga::Arena::iter` and takes the item at `index`. The iterator
/// hands out the items in the order of their handles, so this is the item
/// with the handle of that index, if there is one.
#[verifier::external_body]
fn function_at(arena: &naga::Arena<Function>, index: usize) -> (item: Option<&Function>)
    ensures
        item == (if index < arena_functions(*arena).len() {
            Some(&arena_functions(*arena)[index as int])
        } else {
            None
        }),
{
    arena.iter().nth(index).map(|(_, item)| item)
}

/// Calls `naga::Arena::append` and takes the index of the handle that it
/// returns: `value` becomes the last item, and the handle is its own.
///
/// The call panics where the arena has no handle left for the item: an
/// arena of fewer than `u32::MAX` items always has one.
#[verifier::external_body]
fn append_function(arena: &mut naga::Arena<Function>, value: Function) -> (index: usize)
    requires
        arena_functions(*old(arena)).len() < u32::MAX,
    ensures
        index == arena_functions(*old(arena)).len(),
        arena_functions(*final(arena)) == arena_functions(*old(arena)).push(value),
{
    arena.append(value, naga::Span::default()).index()
}

impl Item for Function {
    open spec fn held(arena: naga::Arena<Function>) -> Seq<Function> {
        arena_functions(arena)
    }

    fn new_arena() -> (arena: naga::Arena<Function>) {
        new_functions()
    }

    fn count(arena: &naga::Arena<Function>) -> (len: usize) {
        count_functions(arena)
    }

    fn at(arena: &naga::Arena<Function>, index: usize) -> (item: Option<&Function>) {
        function_at(arena, index)
    }

    fn append(arena: &mut naga::Arena<Function>, value: Function) -> (index: usize) {
        append_function(arena, value)
    }
}

/// An arena: items in the order in which they were appended, each with a
/// span. The position of an item is the index of its handle.
#[derive(Debug)]
#[verifier::reject_recursive_types(T)]
pub struct ItemArena<T> {
    pub arena: naga::Arena<T>,
    pub spans: Vec<Span>,
}

impl<T: Item> ItemArena<T> {
    /// The items of the arena, each at the position of its handle.
    pub open spec fn items(&self) -> Seq<T> {
        T::held(self.arena)
    }

    /// Whether the arena has no handle left for another item.
    pub open spec fn full(&self) -> bool {
        self.items().len() >= u32::MAX
    }

    pub fn new() -> (arena: ItemArena<T>)
        ensures
            arena.items() == Seq::<T>::empty(),
            arena.spans@ == Seq::<Span>::empty(),
    {
        ItemArena { arena: T::new_arena(), spans: Vec::new() }
    }

    pub fn len(&self) -> (n: usize)
        ensures
            n == self.items().len(),
    {
        T::count(&self.arena)
    }

    /// Adds `value` at the end, with `span`, and returns its index;
    /// nothing where the arena is full.
    pub fn append(&mut self, value: T, span: Span) -> (index: Option<usize>)
        ensures
            index.is_none() == old(self).full(),
            index.is_none() ==> *final(self) == *old(self),
            index matches Some(at) ==> {
                &&& at == old(self).items().len()
                &&& final(self).items() == old(self).items().push(value)
                &&& final(self).spans@ == old(self).spans@.push(span)
            },
    {
        if T::count(&self.arena) >= u32::MAX as usize {
            return None;
        }
        let index: usize = T::append(&mut self.arena, value);
        self.spans.push(span);
        Some(index)
    }

    /// The item at `index`, if there is one.
    pub fn try_get(&self, index: usize) -> (item: Option<&T>)
        ensures
            item == (if index < self.items().len() {
                Some(&self.items()[index as int])
            } else {
                None
            }),
    {
        T::at(&self.arena, index)
    }

    /// The span recorded for `index`; the undefined span where none was.
    pub fn get_span(&self, index: usize) -> (span: Span)
        ensures
            span == span_at(self.spans@, index as int),
    {
        if index < self.spans.len() {
            self.spans[index]
        } else {
            Span::undefined()
        }
    }
}

/// The span that a list of spans holds for `index`, undefined when it holds
/// none.
pub open spec fn span_at(spans: Seq<Span>, index: int) -> Span {
    if 0 <= index < spans.len() {
        spans[index]
    } else {
        undefined_span()
    }
}

/// A function of the module.
#[derive(Debug)]
pub struct Function {
    pub name: Option<String>,
    pub arguments: Vec<FunctionArgument>,
    pub result: Option<FunctionResult>,
    pub local_variables: ItemArena<LocalVariable>,
    pub expressions: ItemArena<Expression>,
    pub body: Block,
}

/// Whether two optional names read the same.
pub open spec fn same_name(a: Option<String>, b: Option<String>) -> bool {
    match (a, b) {
        (None, None) => true,
        (Some(x), Some(y)) => x@ == y@,
        _ => false,
    }
}

impl StructMember {
    /// Structural equality: same name, type and offset.
    pub open spec fn same(self, other: StructMember) -> bool {
        same_name(self.name, other.name) && self.ty == other.ty && self.offset == other.offset
    }
}

/// Whether two member lists agree member by member.
pub open spec fn same_members(a: Seq<StructMember>, b: Seq<StructMember>) -> bool {
    a.len() == b.len() && forall|i: int| 0 <= i < a.len() ==> (#[trigger] a[i]).same(b[i])
}

impl TypeInner {
    /// Structural equality of shapes.
    pub open spec fn same(self, other: TypeInner) -> bool {
        match (self, other) {
            (
                TypeInner::Struct { members: a, span: m },
                TypeInner::Struct { members: b, span: n },
            ) => m == n && same_members(a@, b@),
            (TypeInner::Struct { .. }, _) => false,
            (_, TypeInner::Struct { .. }) => false,
            _ => self == other,
        }
    }
}

impl Type {
    /// Structural equality: same name and same shape. This is what `==`
    /// compares, field by field, through [`TypeInner::same`] and
    /// [`StructMember::same`]: a field added to a type is to be added
    /// there.
    pub open spec fn same(self, other: Type) -> bool {
        same_name(self.name, other.name) && self.inner.same(other.inner)
    }

    /// The nameless type of shape `inner`.
    pub open spec fn anonymous(inner: TypeInner) -> Type {
        Type { name: None, inner }
    }
}

/// The position of the first type in `types` at or after `from` that equals
/// `value`; the length of `types` if there is none.
pub open spec fn type_position(types: Seq<Type>, value: Type, from: int) -> int
    decreases types.len() - from,
{
    if from < 0 || from >= types.len() {
        types.len() as int
    } else if types[from].same(value) {
        from
    } else {
        type_position(types, value, from + 1)
    }
}

/// The types after `value` has been inserted: unchanged where an equal type
/// is present, else with `value` at the end.
pub open spec fn types_with(types: Seq<Type>, value: Type) -> Seq<Type> {
    if type_position(types, value, 0) < types.len() {
        types
    } else {
        types.push(value)
    }
}

/// The spans after a type has been inserted with `span`.
pub open spec fn type_spans_with(types: Seq<Type>, spans: Seq<Span>, value: Type, span: Span) -> Seq<
    Span,
> {
    if type_position(types, value, 0) < types.len() {
        spans
    } else {
        spans.push(span)
    }
}

/// Where `type_position` points, a type equal to `value` stands, and none
/// stands before it.
pub proof fn type_position_finds(types: Seq<Type>, value: Type, from: int)
    requires
        0 <= from,
    ensures
        from <= type_position(types, value, from) || types.len() < from,
        type_position(types, value, from) <= types.len() || types.len() < from,
        type_position(types, value, from) < types.len() ==> types[type_position(
            types,
            value,
            from,
        )].same(value),
        forall|i: int|
            from <= i < type_position(types, value, from) ==> !(#[trigger] types[i]).same(value),
    decreases types.len() - from,
{
    if from < types.len() && !types[from].same(value) {
        type_position_finds(types, value, from + 1);
    }
}

/// The arena of unique values of the crate `naga`.
#[verifier::external_type_specification]
#[verifier::external_body]
#[verifier::reject_recursive_types(T)]
pub struct ExUniqueArena<T>(naga::UniqueArena<T>);

/// The types that an arena holds, in the order of their handles: the type
/// with the handle of index `i` stands at position `i`.
pub uninterp spec fn arena_types(arena: naga::UniqueArena<Type>) -> Seq<Type>;

/// Calls `naga::UniqueArena::new`, which makes an arena without
/// elements.
#[verifier::external_body]
fn new_arena() -> (arena: naga::UniqueArena<Type>)
    ensures
        arena_types(arena) == Seq::<Type>::empty(),
{
    naga::UniqueArena::new()
}

/// Calls `naga::UniqueArena::len`, the number of elements of the arena.
#[verifier::external_body]
fn arena_len(arena: &naga::UniqueArena<Type>) -> (len: usize)
    ensures
        len == arena_types(*arena).len(),
{
    arena.len()
}

/// Calls `naga::UniqueArena::iter` and takes the element at `index`. The
/// iterator hands out the elements in the order of their handles, so this
/// is the element with the handle of that index, if there is one.
#[verifier::external_body]
fn arena_item(arena: &naga::UniqueArena<Type>, index: usize) -> (item: Option<&Type>)
    ensures
        item == (if index < arena_types(*arena).len() {
            Some(&arena_types(*arena)[index as int])
        } else {
            None
        }),
{
    arena.iter().nth(index).map(|(_, item)| item)
}

/// Calls `naga::UniqueArena::insert` and takes the index of the handle
/// that it returns. Where the arena holds an element equal to `value`,
/// the handle is that element's and the arena stays as it is; else
/// `value` becomes the last element, and the handle is its own. The arena
/// compares by `==`, which for a type is equality of name and shape.
///
/// The call panics where the arena has no handle left for a new element:
/// an arena of fewer than `u32::MAX` elements always has one.
#[verifier::external_body]
fn arena_insert(arena: &mut naga::UniqueArena<Type>, value: Type) -> (index: usize)
    requires
        arena_types(*old(arena)).len() < u32::MAX,
    ensures
        index == type_position(arena_types(*old(arena)), value, 0),
        arena_types(*final(arena)) == types_with(arena_types(*old(arena)), value),
{
    arena.insert(value, naga::Span::default()).index()
}

/// The arena of a module's types. No two of its types are equal: `insert`
/// hands back the handle of an equal type where the arena holds one.
#[derive(Debug)]
pub struct TypeArena {
    pub arena: naga::UniqueArena<Type>,
    pub spans: Vec<Span>,
}

impl TypeArena {
    /// The types of the arena, each at the position of its handle.
    pub open spec fn items(&self) -> Seq<Type> {
        arena_types(self.arena)
    }

    /// Whether the arena has no handle left for another type.
    pub open spec fn full(&self) -> bool {
        self.items().len() >= u32::MAX
    }

    pub fn new() -> (arena: TypeArena)
        ensures
            arena.items() == Seq::<Type>::empty(),
            arena.spans@ == Seq::<Span>::empty(),
    {
        TypeArena { arena: new_arena(), spans: Vec::new() }
    }

    pub fn len(&self) -> (n: usize)
        ensures
            n == self.items().len(),
    {
        arena_len(&self.arena)
    }

    /// Inserts `value` and returns its handle; nothing where the arena is
    /// full. Where the arena holds an equal type, nothing is added and
    /// the handle is that of the equal type; else `value` goes to the
    /// end, with `span`.
    pub fn insert(&mut self, value: Type, span: Span) -> (handle: Option<TypeHandle>)
        ensures
            handle.is_none() == old(self).full(),
            handle.is_none() ==> *final(self) == *old(self),
            handle matches Some(found) ==> {
                &&& found.0 == type_position(old(self).items(), value, 0)
                &&& final(self).items() == types_with(old(self).items(), value)
                &&& final(self).spans@ == type_spans_with(
                    old(self).items(),
                    old(self).spans@,
                    value,
                    span,
                )
                &&& found.0 < final(self).items().len()
                &&& final(self).items()[found.0 as int].same(value)
            },
    {
        let len: usize = arena_len(&self.arena);
        if len >= u32::MAX as usize {
            return None;
        }
        proof {
            type_position_finds(self.items(), value, 0);
        }
        let index: usize = arena_insert(&mut self.arena, value);
        if index >= len {
            self.spans.push(span);
        }
        Some(TypeHandle(index))
    }

    /// The type at `handle`, if the handle resolves.
    pub fn try_get(&self, handle: TypeHandle) -> (item: Option<&Type>)
        ensures
            item == (if handle.0 < self.items().len() {
                Some(&self.items()[handle.0 as int])
            } else {
                None
            }),
    {
        arena_item(&self.arena, handle.0)
    }

    /// The span recorded for `handle`; the undefined span where none was.
    pub fn get_span(&self, handle: TypeHandle) -> (span: Span)
        ensures
            span == span_at(self.spans@, handle.0 as int),
    {
        if handle.0 < self.spans.len() {
            self.spans[handle.0]
        } else {
            Span::undefined()
        }
    }
}

/// A shader module: the input of the code generator.
#[derive(Debug)]
pub struct SrcModule {
    pub types: TypeArena,
    pub constants: ItemArena<Constant>,
    pub global_variables: ItemArena<GlobalVariable>,
    /// The expressions that define constants and initialise globals.
    pub const_expressions: ItemArena<Expression>,
    pub functions: ItemArena<Function>,
}

impl SrcModule {
    /// A module with nothing in it.
    pub fn new() -> (module: SrcModule)
        ensures
            module.types.items().len() == 0,
            module.types.spans@.len() == 0,
            module.constants.items().len() == 0,
            module.global_variables.items().len() == 0,
            module.const_expressions.items().len() == 0,
            module.functions.items().len() == 0,
    {
        SrcModule {
            types: TypeArena::new(),
            constants: ItemArena::new(),
            global_variables: ItemArena::new(),
            const_expressions: ItemArena::new(),
            functions: ItemArena::new(),
        }
    }
}

} // verus!
