//! Verified front-end passes of the Falcato compiler.
use vstd::prelude::*;

pub mod ast;
pub mod clonar;
pub mod texto;
pub mod codegen;
pub mod args_tipados;

verus! {
} // verus!
