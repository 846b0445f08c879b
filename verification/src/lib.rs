//! A small abstract machine with a type-erased, byte-addressable memory.
//!
//! Memory holds raw bytes and pointer annotations only. A type enters at the
//! moment of a typed read, which checks the bytes found against the validity
//! invariant of the type asked for. Programs for the machine are assembled
//! with an incremental builder and run to a success or to a typed diagnosis
//! of undefined behaviour.

pub mod builder;
pub mod encoding;
pub mod error;
pub mod eval;
pub mod ints;
pub mod laws;
pub mod memory;
pub mod program;
pub mod reloc;
pub mod types;
