//! A safety layer that exposes native, statically typed values to an embedded
//! dynamically typed scripting runtime as opaque "userdata" blocks.
//!
//! Each block is a manually laid out byte buffer: an 8-byte header (a signed
//! borrow byte, a frozen byte, and a 48-bit little-endian type tag) followed by
//! a fixed-size payload region.  A [`descriptor::Descriptor`] holds the static
//! per-type metadata (display name, payload size, tag); a
//! [`handle::UserPtr`] is a transient, type-bound view over a block that is
//! re-derived by validation on every call into native code.
//!
//! The interpreter that owns the blocks is an external collaborator.  Its
//! value graph is modelled by [`interp::Interp`], a stack of dynamically typed
//! slots, and its error-unwind mechanism by `Result` values carrying
//! [`interp::LuaError`].  Invariant violations in native setup code (duplicate
//! metatable names, malformed method tables) are reported as
//! [`interp::SetupError`]; they are not script-recoverable conditions, and a
//! host is expected to abort on them rather than continue.

pub mod block;
pub mod descriptor;
pub mod freeze_api;
pub mod handle;
pub mod interp;
pub mod registry;
pub mod tag;
