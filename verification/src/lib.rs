//! A minimal virtual CPU in the style of CHIP-8.
//!
//! The machine fetches 16-bit opcodes from a 4096-byte memory, decodes them
//! into fixed-width fields, and executes them against sixteen 8-bit
//! registers and a sixteen-entry call stack until it halts or faults.
//!
//! * [`opcode`] holds the decoder and the dispatch rules.
//! * [`machine`] is the mathematical model: the state as sequences, one
//!   instruction cycle and a whole run as spec functions.
//! * [`cpu`] is the executable machine, proved against the model.
//! * [`laws`] states what holds of the model in general.

pub mod opcode;
pub mod machine;
pub mod cpu;
pub mod laws;
