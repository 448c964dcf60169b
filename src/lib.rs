//! A minimal Java virtual machine core: a class-file decoder and a bytecode
//! interpreter whose instructions act on typed 32-bit slots.

use vstd::prelude::*;

pub mod attribute;
pub mod bytecode_reader;
pub mod bytes;
pub mod class_reader;
pub mod classfile;
pub mod constant_pool;
pub mod error;
pub mod execute;
pub mod instructions;
pub mod interpreter;
pub mod runtime;
pub mod semantics;

verus! {

} // verus!
