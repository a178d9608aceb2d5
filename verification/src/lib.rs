//! Verified core of the sinan (south-pointing spoon) simulation backend:
//! device catalogue, configuration resolution, query and topic text,
//! request-parameter handling, compute-pool bookkeeping and metric recording.

pub mod models;
pub mod decimal;
pub mod config;
pub mod queries;
pub mod messaging;
pub mod http;
pub mod compute_pool;
pub mod metrics;
pub mod ids;
pub mod device_cache;
pub mod timestamps;
pub mod alerting;
