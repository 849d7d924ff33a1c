//! A small file-analysis service core: a record store keyed by 128-bit ids,
//! the request values its routes accept, and the responses they produce.

pub mod record;
pub mod store;
pub mod ids;
pub mod dates;
pub mod decimal;
pub mod request;
pub mod api;
