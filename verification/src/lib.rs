//! A deterministic byte-code virtual machine with a flat 65536-byte memory,
//! a capacity-bounded stack and a fixed bank of registers.
//!
//! The machine never performs input or output itself: executing an
//! instruction yields an action that tells the host what to do.

pub mod array_debug;
pub mod bits;
pub mod constant_size_string;
pub mod countdown;
pub mod encoding;
pub mod engine;
pub mod execute;
pub mod instruction;
pub mod loader;
pub mod machine;
pub mod memory;
pub mod non_invalidatable;
pub mod omega;
pub mod primes;
pub mod semantics;
pub mod stack;
pub mod state;

pub use machine::Machine;
