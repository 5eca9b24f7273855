//! Small verified building blocks: line handling for console prompts,
//! Fibonacci numbers, and a handful of exercises on branches, enums,
//! structs, loops, modules and vectors.

pub mod branches;
pub mod client;
pub mod enums;
pub mod fibonacci;
pub mod loops;
pub mod network;
pub mod number;
pub mod prompt;
pub mod structs;
pub mod text;
pub mod vectors;
