//! A verified decode-and-execute core for the RV32I base integer instruction
//! set: bit-field extraction for the six instruction encodings, typed
//! instruction values, and an executor that applies their semantics to a
//! machine-state snapshot.

pub mod emulator;
pub mod instruction_formats;
pub mod instruction_signatures;
pub mod rv32i;
