use vstd::prelude::*;

pub mod common;
pub mod fetch;
pub mod registers;
pub mod instruction;
pub mod decode;
pub mod agu;
pub mod alu;
pub mod execute;
pub mod execute_step;
pub mod system_step;
pub mod memory;
pub mod memory_step;
pub mod thumb16;
pub mod thumb32;
pub mod builtins;
pub mod decode_stage;

verus! {
} // verus!
