//! Surfaces of the software backend.

use vstd::prelude::*;

verus! {

/// A surface to present to. The backend renders off screen only.
#[derive(Clone, Copy, Debug)]
pub struct Surface;

} // verus!
