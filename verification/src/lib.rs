//! Slashsum: several digests of one byte stream in a single pass.
//!
//! The stream is read once, in bounded chunks, and fanned out to five
//! independent accumulators — CRC-32 (ISO-HDLC), MD5, SHA-1, SHA-256 and
//! SHA-512 — each of which must see every chunk exactly once, in order. The
//! digest of a stream is a function of its bytes alone, so any chunking of
//! the same bytes yields the same digests; that, the exact text of the
//! final report, and the coordinator's all-or-nothing behaviour on a read
//! failure are stated in the contracts here and proved. The hash primitives
//! themselves are outside crates, called through a small trusted boundary.

pub mod cli;
pub mod digest;
mod extern_specs;
pub mod numfmt;
pub mod pipeline;
pub mod size;
