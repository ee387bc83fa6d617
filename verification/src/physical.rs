//! The parts of the toy as they are sold: what a course needs of them, what
//! a collection holds of them, and whether the one can be built from the
//! other.
use vstd::prelude::*;

pub mod bom;
pub mod element;
pub mod inventory;
pub mod set;

verus! {

} // verus!
