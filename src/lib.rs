//! A verified core for issuing database queries from a single-threaded host:
//! the dynamic value format and its conversion to and from native column
//! values, parameter binding, the pool slot, and the table of polled jobs.

pub mod binder;
pub mod codec;
pub mod jobs;
pub mod json;
pub mod native;
pub mod pool;
pub mod query;
pub mod text;
