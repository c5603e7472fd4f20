//! A CHIP-8 virtual machine: processor state, instruction decoding and the
//! semantics of one fetch-decode-execute cycle, stated over a mathematical
//! model of the machine.

pub mod font;
pub mod machine;
pub mod instruction;
pub mod fault;
pub mod display;
pub mod semantics;
mod entropy;
pub mod cpu;
pub mod cycle;
pub mod keypad;
pub mod laws;
