//! A boundary layer for exposing library results and failures across a flat
//! calling convention: a transferable string value with an explicit ownership
//! tag, a per-context "last error" slot, and a wrapping discipline that turns
//! fallible operations into calls that report failure through a sentinel and
//! the error slot instead of unwinding.
//!
//! Buffers that cross the boundary are modelled by an explicit [`memory::Memory`]
//! arena: a boundary string's `data` field is a handle into it, with `0`
//! standing for the null pointer.

pub mod boundary;
pub mod context;
pub mod cstr;
pub mod error;
pub mod memory;
pub mod wrapper;
