//! A trait that only this crate can implement.

use vstd::prelude::*;

verus! {

/// Closes a trait to implementations from outside this crate.
pub trait Sealed {

}

} // verus!
