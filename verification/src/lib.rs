//! Relocation relaxation for x86-64: the part of a static linker that, while
//! it writes a section, looks at the instruction bytes around a relocation
//! and, where a cheaper form exists, rewrites the instruction and replaces
//! the relocation type.
//!
//! - [`decider`] decides whether a relocation is relaxed, and how.
//! - [`relaxation`] rewrites the instruction bytes.
//! - [`relax`] does both for one relocation.
//! - [`arch`] holds what else the linker asks of x86-64, among it the stub
//!   of the procedure linkage table.
//! - [`laws`] states what holds of every decision.
//!
//! The contracts speak of a section as a sequence of bytes and of a place in
//! it as an integer. Relocation numbers, the machine number and the section
//! flag of executable code are read from the `object` crate, in [`elf`].

pub mod arch;
pub mod bytes;
pub mod decider;
pub mod elf;
pub mod error;
pub mod flags;
pub mod laws;
pub mod relax;
pub mod relaxation;
pub mod relocation;
pub mod text;
