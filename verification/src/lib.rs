//! A deterministic, gas-metered interpreter for a subset of 32-bit x86.
//!
//! The machine state, the instruction decoder, the decode-ahead pipeline, the
//! dispatcher and every instruction handler carry contracts over a
//! mathematical model of the machine ([`vm::Machine`]).

/// Helper structures used across the entire machine
pub mod structs;
/// Instruction and argument decoding
pub mod decoding;
/// Opcode definitions, including the opcode map of the supported subset
pub mod opcodes;
/// Decode-ahead pipeline
pub mod pipeline;
/// The machine itself and the functions handlers use to read and change its state
pub mod vm;
/// What holds of whole cycles and executions
pub mod runs;
/// Sparse guest memory
pub mod memory;
/// Width-generic integer arithmetic with its effect on the flags
pub mod arith;
/// The instruction handlers
pub mod ops;
/// The opcode table of the supported subset
pub mod subset;
/// The flag register
pub mod flags;
/// Single-bit access to unsigned integers
pub mod bitmanip;
