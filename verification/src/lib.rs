//! A small text-resource loader with structured error classification.
//!
//! The library separates three concerns:
//! - `failure`: the closed set of reasons a load can fail, each carrying an
//!   opaque diagnostic for logging;
//! - `loader`: the decision logic that classifies the outcome of each storage
//!   primitive (open-for-read, create-empty, read-all) and chooses the next
//!   step, including the create-on-absence recovery of `load_or_create`;
//! - `store`: an in-memory model of the underlying storage facility, on which
//!   the two operations `load_or_create` and `load_strict` are built and
//!   verified end to end;
//! - `laws`: proved statements of the loader's guarantees over the store
//!   model, such as idempotence of `load_or_create` and the write-then-load
//!   round trip.
//!
//! Real storage (for instance the file system) lives outside the library: a
//! caller performs the blocking calls, translates each result into an
//! outcome value, and lets the verified decision functions choose every step.

pub mod failure;
pub mod laws;
pub mod loader;
pub mod store;
