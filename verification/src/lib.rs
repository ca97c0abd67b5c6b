//! Decoder for the instruction stream of JVM method bodies.

pub mod decoder;
pub mod endian;
pub mod instruction;
pub mod lemmas;
pub mod opcodes;
pub mod operand;
pub mod prefix;
pub mod shape;
