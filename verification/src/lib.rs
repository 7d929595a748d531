use vstd::prelude::*;

pub mod bits;
pub mod cpu;
pub mod isa;
pub mod instructions;
pub mod machine;
pub mod laws;
pub mod semantics;
pub mod decoding;

verus! {
} // verus!
