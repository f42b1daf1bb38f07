//! Flattening of issue / pull-request activity logs into analysis-ready
//! records: role inference for every participant, closer resolution,
//! elapsed-time metrics and outcome classification.

pub mod json;
pub mod raw;
pub mod record;
pub mod reduce;
pub mod role;
pub mod time;
