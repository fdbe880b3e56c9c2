//! What the processor does: the instruction handlers with their decoders, and
//! the fetch-decode-execute loop.

pub mod engine;
pub mod operations;
