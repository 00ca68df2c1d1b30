//! Request-handling rules of the linkshare service: credential encoding,
//! session checks, the filters and records sent to the stores, and the
//! replies chosen for every outcome.

pub mod clock;
pub mod codec;
pub mod config;
pub mod configure;
pub mod dataa;
pub mod kdf;
pub mod queries;
pub mod routes;
pub mod userdata;

pub use routes::error::{Error, ErrorType};
pub use routes::reply::{Reply, Step};
