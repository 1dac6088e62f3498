//! Host-side support for a MIPS32 teaching emulator.
//!
//! The emulator itself (assembler and CPU engine) lives elsewhere. This crate
//! holds everything the host does around it: packing assembled bytes into
//! words, padding the data segment, rendering dumps, servicing system calls,
//! reading NUL-terminated strings out of memory, and bounding a run by a
//! tick budget. Every function carries a contract that Verus proves.

pub mod text;
pub mod words;
pub mod render;
pub mod registers;
pub mod trap;
pub mod reader;
pub mod run;
pub mod report;
