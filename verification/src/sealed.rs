//! Seals traits of this crate against outside implementations.

use vstd::prelude::*;

verus! {

/// Supertrait of the crate's sealed traits.  It lives in a private
/// module, so only types of this crate can implement them.
pub trait Sealed {
}

} // verus!
