//! Central mutable context of a retained-mode rendering engine.
//!
//! The crate owns the bookkeeping that sits between a UI tree and a GPU
//! backend: slab arenas with free-index stacks for every resource kind,
//! a fingerprint-keyed deduplication cache with generation-tag validation,
//! a tracker for pending shader compiles, a double-buffered dirty/redraw
//! scheduler driven by monotonic generation counters, an input router with
//! per-finger tap accumulation and a three-slot key-focus chain, and a
//! signal bus for deferred cross-component notification.

pub mod area;
pub mod arena;
pub mod cx;
pub mod dedup;
pub mod input;
pub mod pos;
pub mod sched;
pub mod shader;
pub mod signal;
