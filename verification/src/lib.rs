//! A verified model of a single-threaded, completion-based TCP responder.
//!
//! The library holds the logic of the reactor: the operation-tag codec that
//! round-trips through the ring's 64-bit correlation field, the buffer pool
//! that tracks ownership of in-flight receive buffers, the backlog queue that
//! absorbs submission-ring overflow, the dispatch state machine that reacts to
//! completions, and the decision rules of the readiness-based backend.  The
//! unverifiable edges — the ring syscalls, sockets, and raw buffer memory —
//! live outside, and hand the library plain values.

pub mod engine;
pub mod pool;
pub mod reactor;
pub mod readiness;
pub mod response;
pub mod tag;
