//! A marker trait that keeps the library's screen traits from being implemented
//! outside of it.
use vstd::prelude::*;

verus! {

/// Implemented by the library's screens only.
pub trait Sealed {}

} // verus!
