//! The crate-private supertrait that seals `Principal` and `Resource`.

use vstd::prelude::*;

verus! {

/// Implemented only inside this crate; external crates cannot add members
/// to the Principal or Resource unions.
pub trait Sealed {}

} // verus!
