//! Ingestion core of an energy-meter logger: decoding of broker payloads,
//! the broker session and maintenance state machines, and the deduplicating
//! write transaction that stores one reading as four related rows.
//!
//! A payload travels from [`decode`] through [`pipeline`] into
//! [`operations`], which records it in a [`store`] exactly once. The
//! numbers of a reading are kept as bit patterns and narrowed by
//! [`numeric`]; its timestamp is read by [`timestamp`]. [`session`] and
//! [`maintenance`] hold the decisions of the two long-running tasks; what
//! they ask for is done by whoever owns the broker client and the
//! connection pool.

pub mod decode;
pub mod maintenance;
pub mod models;
pub mod numeric;
pub mod operations;
pub mod pipeline;
pub mod reading;
pub mod session;
pub mod settings;
pub mod store;
pub mod timestamp;
