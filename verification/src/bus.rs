//! The integer type that identifiers and row numbers are made of.

use vstd::prelude::*;

verus! {

/// Many devices have an ideal bus width that does not match the width of the processor's
/// pointer register. Every identifier of this library is made of this type, so that one
/// alias settles the width. It is the pointer width, the choice that suits a hosted target.
pub type Width = usize;

} // verus!
