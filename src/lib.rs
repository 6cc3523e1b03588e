use vstd::prelude::*;

pub mod compile;
pub mod instructions;
pub mod targets;
pub mod term;

verus! {

} // verus!
