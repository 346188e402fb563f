//! An interpreter for the CHIP-8 instruction set: decoder, memory, call
//! stack, display buffer, key input and the fetch-decode-execute engine.

pub mod instruction;
pub mod fault;
pub mod memory;
pub mod stack;
pub mod display;
pub mod keypad;
pub mod machine;
pub mod cpu;
