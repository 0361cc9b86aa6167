//! The error type of an etcd v3 client: one closed set of failure categories,
//! conversions from the failures of the layers below, and their rendering as text.

pub mod error;
pub mod foreign;

pub use error::Error;
