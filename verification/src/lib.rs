//! A diagnostic logging transport in two halves.
//!
//! The producing half guards a frame codec with a non-reentrant lock and
//! turns every chunk the codec flushes into one printable line: a marker,
//! the chunk in upper-case hexadecimal, a closing bracket and a newline.
//! The consuming half picks such lines out of a stream of mixed output,
//! recovers the bytes for a streaming frame decoder, and decides how the
//! decoder is drained and when the run ends.

pub mod drain;
pub mod encoder;
pub mod hex;
pub mod line;
pub mod session;
pub mod symbols;
