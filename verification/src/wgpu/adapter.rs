//! The adapter of the software backend.

use vstd::prelude::*;

verus! {

/// The one adapter of the backend: the machine's processor.
#[derive(Clone, Copy, Debug)]
pub struct Adapter;

} // verus!
