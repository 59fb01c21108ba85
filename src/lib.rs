//! An interpreter for an 8-bit virtual machine with sixteen registers, 4 KiB of memory,
//! a sixteen-slot call stack and two countdown timers, with every instruction's effect
//! stated and proved over an abstract model of the machine state.
//!
//! - `nibble`: field extraction from instruction words and bit queries.
//! - `machine`: the machine state, its construction and program loading.
//! - `instruction`: decoding of instruction words.
//! - `execute`: the semantics of every instruction.
//! - `run`: the run loop as a state machine, one iteration at a time.
//! - `laws`: properties that relate several instructions or iterations.
//! - `cipher`: a single-byte exclusive-or cipher.

pub mod nibble;
pub mod machine;
pub mod instruction;
pub mod execute;
pub mod run;
pub mod laws;
pub mod cipher;
