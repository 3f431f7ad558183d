//! The index of an access.

use crate::ir::ExprHandle;
use vstd::prelude::*;

verus! {

/// The index of an access: an expression, or a number known up front.
#[derive(Clone, Copy, Debug, PartialEq, Eq, Structural)]
pub enum Index {
    Dynamic(ExprHandle),
    Constant(u32),
}

} // verus!
