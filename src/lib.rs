//! Structured fuzzing of a sandboxed host.
//!
//! Random bytes are decoded into one typed instruction of a closed catalog,
//! the instruction is adapted to the host's native operands, and each
//! completed host call is recorded as one telemetry line.
//!
//! - `codec`: a byte cursor and the primitive values read from it.
//! - `value`: generic host values before they are placed in a host.
//! - `operand`: source-neutral operand values and their decoding.
//! - `catalog`: categories, operations, their operand signatures, decoding
//!   of one instruction, and each operation's stable name.
//! - `host`: adaptation of a decoded instruction to host-native operands.
//! - `theorems`: totality, determinism and coverage of decoding.
//! - `telemetry`: the log header, record lines, and what a run appends.
use vstd::prelude::*;

pub mod codec;
pub mod value;
pub mod operand;
pub mod catalog;
pub mod host;
pub mod theorems;
pub mod telemetry;

verus! {

} // verus!
