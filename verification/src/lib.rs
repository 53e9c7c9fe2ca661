//! Canonical in-memory representation of x86-64 instruction operands
//! (registers, immediates, memory references) together with operand-size
//! inference and AT&T-syntax text rendering.

pub mod instruction_set;
pub mod render;
