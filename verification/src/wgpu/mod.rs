//! A software backend for a graphics hardware abstraction: what it
//! records when commands are encoded, in plain values.
//!
//! Resources are blocks of bytes. A command names a place by its address,
//! which is the address of a resource and an offset into it.

use vstd::prelude::*;

pub mod adapter;
pub mod command_encoder;
pub mod device;
pub mod queue;
pub mod surface;
pub mod texture;

verus! {

/// Stands for a kind of resource that the backend does not have yet.
#[derive(Clone, Copy, Debug)]
pub struct Todo;

/// The backend, as a selection of types.
#[derive(Clone, Copy, Debug)]
pub struct Api;

/// A number of bytes or an offset as a machine word; `None` where it does
/// not fit one.
pub open spec fn word(value: int) -> Option<usize> {
    if 0 <= value <= usize::MAX {
        Some(value as usize)
    } else {
        None
    }
}

/// The product of two words; `None` where one is missing or the product
/// does not fit a word.
pub open spec fn times(a: Option<usize>, b: Option<usize>) -> Option<usize> {
    match (a, b) {
        (Some(x), Some(y)) => word(x * y),
        _ => None,
    }
}

/// The sum of two words; `None` where one is missing or the sum does not
/// fit a word.
pub open spec fn plus(a: Option<usize>, b: Option<usize>) -> Option<usize> {
    match (a, b) {
        (Some(x), Some(y)) => word(x + y),
        _ => None,
    }
}

/// The product of two words.
pub fn checked_times(a: Option<usize>, b: Option<usize>) -> (product: Option<usize>)
    ensures
        product == times(a, b),
{
    match (a, b) {
        (Some(x), Some(y)) => {
            assert(x * y >= 0) by (nonlinear_arith)
                requires
                    x >= 0,
                    y >= 0,
            ;
            x.checked_mul(y)
        },
        _ => None,
    }
}

/// The sum of two words.
pub fn checked_plus(a: Option<usize>, b: Option<usize>) -> (sum: Option<usize>)
    ensures
        sum == plus(a, b),
{
    match (a, b) {
        (Some(x), Some(y)) => x.checked_add(y),
        _ => None,
    }
}

/// A 64-bit number as a word.
pub fn word_of(value: u64) -> (converted: Option<usize>)
    ensures
        converted == word(value as int),
{
    if value <= usize::MAX as u64 {
        Some(value as usize)
    } else {
        None
    }
}

} // verus!
