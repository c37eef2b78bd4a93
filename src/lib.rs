//! Normalisation core of a compliance data ingester: resolves the shape of
//! provider responses, follows their pagination, reads their throttling
//! headers, stamps source metadata and turns records into sink events.
pub mod json;
pub mod headers;
pub mod resolve;
pub mod paging;
pub mod metadata;
pub mod emit;
pub mod rate;
pub mod fetch;
pub mod users;
