//! A bridge between an application and an audio service whose client API is
//! single-threaded and driven by callbacks and manual event-loop iteration.
//!
//! `types` holds the device and server snapshots, `protocol` the messages and
//! the consumer's event lifecycle, `adapter` the decisions that turn a
//! callback operation into a synchronous result, `worker` the request
//! handling of the single worker that owns the connection, and `laws` what
//! holds of the worker over whole exchanges.
use vstd::prelude::*;

pub mod adapter;
pub mod laws;
pub mod protocol;
pub mod types;
pub mod worker;
