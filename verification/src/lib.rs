//! Large-file-storage transfer core.
//!
//! Working-tree files above a size threshold are replaced by small pointer
//! records; the real content is moved out-of-band through a JSON batch
//! negotiation plus pluggable upload/download transports. This crate holds
//! the verified core: the pointer model, the batch protocol data shapes,
//! the error taxonomy, and the per-object transfer state machines that
//! drive `pull` and `push` with bounded retry and integrity checking.
//! The unverified shell performs the actual I/O the machines ask for.

pub mod errors;
pub mod pointer;
pub mod protocol;
pub mod pull;
pub mod push;
