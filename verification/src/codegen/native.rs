//! The native code representation that the generator emits.
//!
//! A native type is a tree. A native value is the position of the
//! instruction that produced it in the module's code, a flat list in
//! emission order: replaying the list front to back rebuilds the module.

use vstd::prelude::*;

verus! {

/// A type of the native representation.
#[derive(Debug, PartialEq, Eq)]
pub enum NativeType {
    Void,
    /// An integer of this many bits.
    Int(u32),
    Half,
    Float,
    Double,
    Quad,
    /// An opaque pointer.
    Pointer,
    Vector { element: Box<NativeType>, len: u32 },
    Array { element: Box<NativeType>, len: u64 },
    /// A packed struct: its members follow one another without gaps.
    Struct { members: Members },
    Function { result: Box<NativeType>, params: Members },
}

/// A list of native types, first member first.
#[derive(Debug, PartialEq, Eq)]
pub enum Members {
    End,
    Then(Box<NativeType>, Box<Members>),
}

impl Members {
    /// The listed types as a sequence.
    pub open spec fn seq(self) -> Seq<NativeType>
        decreases self,
    {
        match self {
            Members::End => Seq::empty(),
            Members::Then(first, rest) => seq![*first].add(rest.seq()),
        }
    }

    pub fn duplicate(&self) -> (copy: Members)
        ensures
            copy == *self,
        decreases self,
    {
        match self {
            Members::End => Members::End,
            Members::Then(first, rest) => Members::Then(
                Box::new(first.duplicate()),
                Box::new(rest.duplicate()),
            ),
        }
    }

    pub fn same(&self, other: &Members) -> (equal: bool)
        ensures
            equal == (*self == *other),
        decreases self,
    {
        match (self, other) {
            (Members::End, Members::End) => true,
            (Members::Then(a, rest_a), Members::Then(b, rest_b)) => a.same(b) && rest_a.same(
                rest_b,
            ),
            _ => false,
        }
    }
}

impl NativeType {
    pub fn duplicate(&self) -> (copy: NativeType)
        ensures
            copy == *self,
        decreases self,
    {
        match self {
            NativeType::Void => NativeType::Void,
            NativeType::Int(bits) => NativeType::Int(*bits),
            NativeType::Half => NativeType::Half,
            NativeType::Float => NativeType::Float,
            NativeType::Double => NativeType::Double,
            NativeType::Quad => NativeType::Quad,
            NativeType::Pointer => NativeType::Pointer,
            NativeType::Vector { element, len } => NativeType::Vector {
                element: Box::new(element.duplicate()),
                len: *len,
            },
            NativeType::Array { element, len } => NativeType::Array {
                element: Box::new(element.duplicate()),
                len: *len,
            },
            NativeType::Struct { members } => NativeType::Struct { members: members.duplicate() },
            NativeType::Function { result, params } => NativeType::Function {
                result: Box::new(result.duplicate()),
                params: params.duplicate(),
            },
        }
    }

    pub fn same(&self, other: &NativeType) -> (equal: bool)
        ensures
            equal == (*self == *other),
        decreases self,
    {
        match (self, other) {
            (NativeType::Void, NativeType::Void) => true,
            (NativeType::Int(a), NativeType::Int(b)) => *a == *b,
            (NativeType::Half, NativeType::Half) => true,
            (NativeType::Float, NativeType::Float) => true,
            (NativeType::Double, NativeType::Double) => true,
            (NativeType::Quad, NativeType::Quad) => true,
            (NativeType::Pointer, NativeType::Pointer) => true,
            (
                NativeType::Vector { element: a, len: n },
                NativeType::Vector { element: b, len: m },
            ) => *n == *m && a.same(b),
            (
                NativeType::Array { element: a, len: n },
                NativeType::Array { element: b, len: m },
            ) => *n == *m && a.same(b),
            (NativeType::Struct { members: a }, NativeType::Struct { members: b }) => a.same(b),
            (
                NativeType::Function { result: a, params: p },
                NativeType::Function { result: b, params: q },
            ) => a.same(b) && p.same(q),
            _ => false,
        }
    }

    /// The vector type of `len` lanes of `element`.
    pub fn vector(element: NativeType, len: u32) -> (ty: NativeType)
        ensures
            ty == (NativeType::Vector { element: Box::new(element), len }),
    {
        NativeType::Vector { element: Box::new(element), len }
    }

    /// The array type of `len` elements of `element`.
    pub fn array(element: NativeType, len: u64) -> (ty: NativeType)
        ensures
            ty == (NativeType::Array { element: Box::new(element), len }),
    {
        NativeType::Array { element: Box::new(element), len }
    }
}

/// A value of the native representation: the position in the module's code
/// of the instruction that produced it.
#[derive(Clone, Copy, Debug, PartialEq, Eq, Structural, Hash)]
pub struct NativeValue(pub usize);

/// The operation of a two-operand instruction.
#[derive(Clone, Copy, Debug, PartialEq, Eq, Structural, Hash)]
pub enum Opcode {
    FAdd,
    Add,
    FSub,
    Sub,
    FMul,
    Mul,
    FDiv,
    SDiv,
    UDiv,
    FRem,
    SRem,
    URem,
    And,
    Xor,
    Or,
    Shl,
    LShr,
    AShr,
    ICmpEq,
    ICmpNe,
    ICmpUlt,
    ICmpSlt,
    ICmpUle,
    ICmpSle,
    ICmpUgt,
    ICmpSgt,
    ICmpUge,
    ICmpSge,
    FCmpOeq,
    FCmpUne,
    FCmpOlt,
    FCmpOle,
    FCmpOgt,
    FCmpOge,
}

/// One entry of a module's code.
#[derive(Debug, PartialEq, Eq)]
pub enum Inst {
    ConstU64(u64),
    ConstU32(u32),
    ConstI64(i64),
    ConstI32(i32),
    ConstBool(bool),
    /// A 32-bit float constant, by its bit pattern.
    ConstF32(u32),
    /// A 64-bit float constant, by its bit pattern.
    ConstF64(u64),
    /// The zero value of a type.
    ConstNull(NativeType),
    /// A placeholder of a type, with no defined contents.
    Undef(NativeType),
    /// A constant vector with `element` in each of its `len` lanes.
    ConstVector { element: NativeValue, len: u32 },
    InsertElement { vector: NativeValue, element: NativeValue, index: NativeValue },
    ExtractElement { vector: NativeValue, index: NativeValue },
    InsertValue { aggregate: NativeValue, element: NativeValue, index: u32 },
    ExtractValue { aggregate: NativeValue, index: u32 },
    ShuffleVector { first: NativeValue, second: NativeValue, mask: NativeValue },
    /// The address of element `index` of the `pointee` that `base` points
    /// to; `zero` is the leading index that selects the pointee itself.
    ElementPointer { pointee: NativeType, base: NativeValue, zero: NativeValue, index: NativeValue },
    Load { ty: NativeType, pointer: NativeValue },
    Store { value: NativeValue, pointer: NativeValue },
    /// Stack storage for one value of `ty`.
    Alloca { ty: NativeType },
    Binary { op: Opcode, lhs: NativeValue, rhs: NativeValue },
    /// The product of two flattened matrices, of `rows` by `inner` and of
    /// `inner` by `columns` elements.
    MatrixMultiply {
        result: NativeType,
        lhs: NativeValue,
        rhs: NativeValue,
        rows: NativeValue,
        inner: NativeValue,
        columns: NativeValue,
    },
    /// Reads a matrix stored column by column into a flattened value.
    ColumnMajorLoad {
        result: NativeType,
        pointer: NativeValue,
        stride: NativeValue,
        volatile: NativeValue,
        rows: NativeValue,
        columns: NativeValue,
    },
    /// Writes a flattened matrix column by column.
    ColumnMajorStore {
        value: NativeValue,
        pointer: NativeValue,
        stride: NativeValue,
        volatile: NativeValue,
        rows: NativeValue,
        columns: NativeValue,
    },
    /// Declares the global variable with this index in the source module.
    Global { variable: usize, ty: NativeType },
    Initializer { global: NativeValue, value: NativeValue },
    /// Declares the function with this index in the source module.
    Function { function: usize, ty: NativeType },
    /// Opens the entry block of a function; the entries that follow go
    /// into it.
    EntryBlock { function: NativeValue },
    Parameter { function: NativeValue, index: u32 },
    Return { value: NativeValue },
    ReturnVoid,
}

/// An entry of a module's code, with whether its value is a compile-time
/// constant.
#[derive(Debug, PartialEq, Eq)]
pub struct Emitted {
    pub inst: Inst,
    pub constant: bool,
}

/// Whether the value at `value` in `code` is a compile-time constant. A
/// position outside the code holds no constant.
pub open spec fn is_constant(code: Seq<Emitted>, value: NativeValue) -> bool {
    value.0 < code.len() && code[value.0 as int].constant
}

/// Whether `inst`, appended to `code`, yields a compile-time constant:
/// constants, placeholders and declarations do; so does an instruction
/// without side effects all of whose operands are constants.
pub open spec fn yields_constant(code: Seq<Emitted>, inst: Inst) -> bool {
    match inst {
        Inst::ConstU64(_) | Inst::ConstU32(_) | Inst::ConstI64(_) | Inst::ConstI32(_)
        | Inst::ConstBool(_) | Inst::ConstF32(_) | Inst::ConstF64(_) | Inst::ConstNull(_)
        | Inst::Undef(_) | Inst::ConstVector { .. } | Inst::Global { .. } | Inst::Function {
            ..
        } => true,
        Inst::InsertElement { vector, element, index } => is_constant(code, vector) && is_constant(
            code,
            element,
        ) && is_constant(code, index),
        Inst::ExtractElement { vector, index } => is_constant(code, vector) && is_constant(
            code,
            index,
        ),
        Inst::InsertValue { aggregate, element, .. } => is_constant(code, aggregate)
            && is_constant(code, element),
        Inst::ExtractValue { aggregate, .. } => is_constant(code, aggregate),
        Inst::ShuffleVector { first, second, mask } => is_constant(code, first) && is_constant(
            code,
            second,
        ) && is_constant(code, mask),
        Inst::ElementPointer { base, zero, index, .. } => is_constant(code, base) && is_constant(
            code,
            zero,
        ) && is_constant(code, index),
        Inst::Binary { lhs, rhs, .. } => is_constant(code, lhs) && is_constant(code, rhs),
        _ => false,
    }
}

} // verus!
