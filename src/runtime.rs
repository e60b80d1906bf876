//! The contract between generated code and the helper routines it calls.
//!
//! Each helper is called with the System V calling convention:
//!
//! - `grow_next(base, capacity) -> base`: appends a zeroed chunk of
//!   `TAPE_CHUNK_SIZE` bytes to the tape and returns its (possibly moved) base.
//! - `grow_prev(base, capacity) -> base`: prepends a zeroed chunk; the caller
//!   shifts its cursor and capacity by `TAPE_CHUNK_SIZE`.
//! - `get(io) -> u16`: a negative result (sign bit set) is a failure; otherwise
//!   the data byte is the high byte, brought down by an eight-bit rotation.
//! - `put(io, byte) -> u8`: a result with the sign bit set is a failure.
//!
//! A failure result becomes the compiled function's return value as it is.
use vstd::prelude::*;

verus! {

/// The number of bytes by which a growth helper extends the tape.
pub const TAPE_CHUNK_SIZE: u32 = 4096;

/// The absolute addresses of the helper routines that generated code calls.
#[derive(Clone, Copy, Debug, PartialEq, Eq, Structural)]
pub struct Runtime {
    pub grow_next: u64,
    pub grow_prev: u64,
    pub get: u64,
    pub put: u64,
}

} // verus!
