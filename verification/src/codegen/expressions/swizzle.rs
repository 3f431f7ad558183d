//! Lowering of swizzles.

use crate::codegen::error::{fail, failed, Halt, Info};
use crate::codegen::native::{Inst, NativeType, NativeValue};
use crate::codegen::types::lower_cached_type;
use crate::codegen::{with_type, Generator, State, Typed};
use crate::ir::{Scalar, Span, TypeHandle, TypeInner, VectorSize};
use vstd::prelude::*;

verus! {

/// The first of the lanes `from..take` of `pattern` that lies beyond
/// `limit`, if any.
pub open spec fn first_beyond(pattern: Seq<usize>, take: int, limit: int, from: int) -> Option<
    usize,
>
    decreases take - from,
{
    if from < 0 || from >= take || from >= pattern.len() {
        None
    } else if pattern[from] > limit {
        Some(pattern[from])
    } else {
        first_beyond(pattern, take, limit, from + 1)
    }
}

/// Fills the lanes `i..lanes` of the shuffle mask `mask` with the lanes
/// that `pattern` selects.
pub open spec fn mask_lanes(s: State, mask: NativeValue, pattern: Seq<usize>, i: u32, lanes: u32) -> (
    State,
    NativeValue,
)
    decreases lanes - i,
{
    if i >= lanes || i >= pattern.len() {
        (s, mask)
    } else {
        let (s1, lane) = s.emit(Inst::ConstU64(pattern[i as int] as u64));
        let (s2, at) = s1.emit(Inst::ConstU64(i as u64));
        let (s3, next) = s2.emit(Inst::InsertElement { vector: mask, element: lane, index: at });
        mask_lanes(s3, next, pattern, (i + 1) as u32, lanes)
    }
}

/// Lowers the selection of `size` lanes from `vector`, a value of the type
/// `ty` that lowers to a vector of `limit` lanes of `scalar`.
///
/// None of the first `size` lanes of `pattern` may lie beyond `limit`:
/// else nothing is emitted. The result is a shuffle of the vector under
/// the mask of the selected lanes, of the vector type of `size` lanes of
/// the scalar.
pub open spec fn shuffle(
    s: State,
    span: Span,
    size: VectorSize,
    vector: NativeValue,
    ty: TypeHandle,
    scalar: Scalar,
    limit: u32,
    pattern: Seq<usize>,
) -> (State, Result<Typed, Halt>) {
    match first_beyond(pattern, size.count() as int, limit as int, 0) {
        Some(lane) => (s, Err(failed(Info::NoSuchComponent(ty, lane), span))),
        None => {
            let (s1, undef) = s.emit(
                Inst::Undef(
                    NativeType::Vector {
                        element: Box::new(NativeType::Int(64)),
                        len: size.count(),
                    },
                ),
            );
            let (s2, mask) = mask_lanes(s1, undef, pattern, 0, size.count());
            let (s3, lowered) = lower_cached_type(s2, span, ty);
            match lowered {
                Err(halt) => (s3, Err(halt)),
                Ok(native) => {
                    let (s4, second) = s3.emit(Inst::Undef(native));
                    let (s5, shuffled) = s4.emit(
                        Inst::ShuffleVector { first: vector, second, mask },
                    );
                    let (s6, result) = s5.intern(TypeInner::Vector { size, scalar }, span);
                    (s6, with_type(shuffled, result))
                },
            }
        },
    }
}

/// Lowers a swizzle of `vector`, a value of the type `ty`, to `size`
/// lanes.
///
/// The type must be a vector, and none of the first `size` lanes of
/// `pattern` may lie beyond the vector's size: else nothing is emitted.
/// The result is a shuffle of the vector under the mask of the selected
/// lanes, of the vector type of `size` lanes of the same scalar.
pub open spec fn swizzle(
    s: State,
    span: Span,
    size: VectorSize,
    vector: NativeValue,
    ty: TypeHandle,
    pattern: Seq<usize>,
) -> (State, Result<Typed, Halt>) {
    match s.inner(ty) {
        Err(halt) => (s, Err(halt)),
        Ok(TypeInner::Vector { scalar, size: in_size }) => shuffle(
            s,
            span,
            size,
            vector,
            ty,
            scalar,
            in_size.count(),
            pattern,
        ),
        Ok(_) => (s, Err(failed(Info::NonVectorSwizzle(ty), span))),
    }
}

impl Generator {
    /// Lowers a swizzle of `vector`, a value of the type `ty`, to `size`
    /// lanes.
    pub fn build_swizzle(
        &mut self,
        span: Span,
        size: VectorSize,
        vector: NativeValue,
        ty: TypeHandle,
        pattern: [usize; 4],
    ) -> (lowered: Result<Typed, Halt>)
        ensures
            final(self).module.src.functions == old(self).module.src.functions,
            (final(self)@, lowered) == swizzle(old(self)@, span, size, vector, ty, pattern@),
    {
        let (scalar, in_size) = match self.type_inner(ty)? {
            TypeInner::Vector { scalar, size } => (*scalar, *size),
            _ => {
                return Err(fail(Info::NonVectorSwizzle(ty), span));
            },
        };
        self.build_shuffle(span, size, vector, ty, scalar, in_size.lanes(), pattern)
    }

    /// Lowers the selection of `size` lanes from `vector`, a value of the
    /// type `ty` that lowers to a vector of `limit` lanes of `scalar`.
    pub fn build_shuffle(
        &mut self,
        span: Span,
        size: VectorSize,
        vector: NativeValue,
        ty: TypeHandle,
        scalar: Scalar,
        limit: u32,
        pattern: [usize; 4],
    ) -> (lowered: Result<Typed, Halt>)
        ensures
            final(self).module.src.functions == old(self).module.src.functions,
            (final(self)@, lowered) == shuffle(
                old(self)@,
                span,
                size,
                vector,
                ty,
                scalar,
                limit,
                pattern@,
            ),
    {
        let lanes: u32 = size.lanes();
        let mut i: usize = 0;
        while i < lanes as usize
            invariant
                self.module.src.functions == old(self).module.src.functions,
                i <= lanes,
                lanes <= 4,
                pattern@.len() == 4,
                *self == *old(self),
                lanes == size.count(),
                first_beyond(pattern@, lanes as int, limit as int, 0) == first_beyond(
                    pattern@,
                    lanes as int,
                    limit as int,
                    i as int,
                ),
            decreases lanes - i,
        {
            if pattern[i] > limit as usize {
                return Err(fail(Info::NoSuchComponent(ty, pattern[i]), span));
            }
            i += 1;
        }
        let ghost start = self@;
        let first = self.emit(Inst::Undef(NativeType::vector(NativeType::Int(64), lanes)));
        let mut mask = first;
        let mut lane: u32 = 0;
        while lane < lanes
            invariant
                self.module.src.functions == old(self).module.src.functions,
                lane <= lanes,
                lanes <= 4,
                pattern@.len() == 4,
                mask_lanes(self@, mask, pattern@, lane, lanes) == mask_lanes(
                    start.emit(
                        Inst::Undef(
                            NativeType::Vector {
                                element: Box::new(NativeType::Int(64)),
                                len: lanes,
                            },
                        ),
                    ).0,
                    first,
                    pattern@,
                    0,
                    lanes,
                ),
            decreases lanes - lane,
        {
            let selected = self.emit(Inst::ConstU64(pattern[lane as usize] as u64));
            let at = self.emit(Inst::ConstU64(lane as u64));
            mask = self.emit(Inst::InsertElement { vector: mask, element: selected, index: at });
            lane += 1;
        }
        let native = self.eval_cached_type(span, ty)?;
        let second = self.emit(Inst::Undef(native));
        let shuffled = self.emit(Inst::ShuffleVector { first: vector, second, mask });
        let result = self.insert_type(TypeInner::Vector { size, scalar }, span)?;
        Ok((shuffled, result))
    }
}

} // verus!
