//! What the generator knows of the target machine.

use crate::codegen::native::NativeType;
use vstd::prelude::*;

verus! {

/// How the target lays out one native type.
#[derive(Debug, PartialEq, Eq)]
pub struct Layout {
    pub ty: NativeType,
    /// Bytes from one value of the type to the next in memory.
    pub abi_size: u64,
    /// The alignment, in bytes, that the target prefers for the type.
    pub preferred_alignment: u32,
}

/// A description of the target: the layout of the native types that it has
/// been told about. Where a type is described more than once, the first
/// description counts.
#[derive(Debug)]
pub struct TargetInfo {
    pub layouts: Vec<Layout>,
}

/// The position of the first description of `ty` in `layouts` at or after
/// `from`; the length of `layouts` if there is none.
pub open spec fn layout_position(layouts: Seq<Layout>, ty: NativeType, from: int) -> int
    decreases layouts.len() - from,
{
    if from < 0 || from >= layouts.len() {
        layouts.len() as int
    } else if layouts[from].ty == ty {
        from
    } else {
        layout_position(layouts, ty, from + 1)
    }
}

/// The first description of `ty` in `layouts`, if any.
pub open spec fn layout_of(layouts: Seq<Layout>, ty: NativeType) -> Option<Layout> {
    let at = layout_position(layouts, ty, 0);
    if at < layouts.len() {
        Some(layouts[at])
    } else {
        None
    }
}

impl TargetInfo {
    /// A description that holds no layout yet.
    pub fn new() -> (target: TargetInfo)
        ensures
            target.layouts@ == Seq::<Layout>::empty(),
    {
        TargetInfo { layouts: Vec::new() }
    }

    /// Records the layout of `ty`.
    pub fn describe(&mut self, ty: NativeType, abi_size: u64, preferred_alignment: u32)
        ensures
            final(self).layouts@ == old(self).layouts@.push(
                Layout { ty, abi_size, preferred_alignment },
            ),
    {
        self.layouts.push(Layout { ty, abi_size, preferred_alignment });
    }

    /// The layout recorded for `ty`, if any.
    pub fn layout(&self, ty: &NativeType) -> (found: Option<&Layout>)
        ensures
            match found {
                Some(layout) => layout_of(self.layouts@, *ty) == Some(*layout),
                None => layout_of(self.layouts@, *ty).is_none(),
            },
    {
        let mut i: usize = 0;
        while i < self.layouts.len()
            invariant
                i <= self.layouts@.len(),
                layout_position(self.layouts@, *ty, 0) == layout_position(
                    self.layouts@,
                    *ty,
                    i as int,
                ),
            decreases self.layouts@.len() - i,
        {
            if self.layouts[i].ty.same(ty) {
                return Some(&self.layouts[i]);
            }
            i += 1;
        }
        None
    }

    /// The ABI size in bytes recorded for `ty`, if any.
    pub fn abi_size_of(&self, ty: &NativeType) -> (size: Option<u64>)
        ensures
            size == abi_size(self.layouts@, *ty),
    {
        match self.layout(ty) {
            Some(layout) => Some(layout.abi_size),
            None => None,
        }
    }

    /// The preferred alignment in bytes recorded for `ty`, if any.
    pub fn preferred_alignment_of(&self, ty: &NativeType) -> (alignment: Option<u32>)
        ensures
            alignment == preferred_alignment(self.layouts@, *ty),
    {
        match self.layout(ty) {
            Some(layout) => Some(layout.preferred_alignment),
            None => None,
        }
    }
}

/// The ABI size that `layouts` records for `ty`.
pub open spec fn abi_size(layouts: Seq<Layout>, ty: NativeType) -> Option<u64> {
    match layout_of(layouts, ty) {
        Some(layout) => Some(layout.abi_size),
        None => None,
    }
}

/// The preferred alignment that `layouts` records for `ty`.
pub open spec fn preferred_alignment(layouts: Seq<Layout>, ty: NativeType) -> Option<u32> {
    match layout_of(layouts, ty) {
        Some(layout) => Some(layout.preferred_alignment),
        None => None,
    }
}

} // verus!
