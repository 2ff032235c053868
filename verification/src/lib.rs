//! Data-access layer for a small collection-game backend: a typed document
//! codec, a transactional client for a remote document store, the token
//! manager's scheduling logic, and the optimistic retry policy that callers
//! apply around transactional units of work.
//!
//! The library holds everything that can be decided locally — path
//! composition, encoding and decoding, the transaction state machine,
//! response classification, pagination accounting, retry and refresh
//! scheduling — under verified contracts. An unverified transport around it
//! only moves the requests these functions build and hands their answers
//! back.

pub mod batch;
pub mod client;
pub mod clock;
pub mod codec;
pub mod document;
pub mod double;
pub mod engine;
pub mod errors;
pub mod id;
pub mod models;
pub mod pagination;
pub mod retry;
pub mod server_config;
pub mod strmap;
pub mod text;
pub mod timestamp;
pub mod token;
pub mod transaction;
