//! Aggregation of network-flow records into fixed time windows.
//!
//! Each flow record has its two endpoints classified against a list of
//! configured address ranges, is keyed by window, endpoints, VLANs and
//! protocol, and is merged into an in-memory cache. Once enough input has
//! been taken in, the cache is handed out as one batch of points for a
//! time-series sink and is emptied when the sink confirms the write.

pub mod address;
pub mod cache;
pub mod engine;
pub mod location;
pub mod monitor;
pub mod point;
pub mod range;
pub mod sink;
pub mod text;
pub mod window;
