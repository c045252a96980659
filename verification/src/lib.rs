//! Execution core of a COMET2 virtual machine.
//!
//! The library models the 16-bit COMET2 architecture: a 65,536-word memory,
//! eight general registers, three condition flags, a program register and a
//! stack pointer.  A program is loaded as a big-endian byte stream and then
//! advanced one word-fetch at a time; every state transition is specified and
//! verified against a mathematical model of the machine.
//!
//! `machine` holds the state and the stepper, `operations` the instruction
//! decoder, `memory` and `register` the storage, and `laws` the machine-wide
//! invariants.  `parser` carries the character-level scanner that a CASL II
//! front-end builds on; the front-end itself is outside this library.

pub mod laws;

pub mod machine;

pub mod memory;

pub mod operations;

pub mod parser;

pub mod register;

pub mod to_pairs;

pub mod utils;
