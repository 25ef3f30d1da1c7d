//! Execution and encoding core of a vector-search columnar engine: product
//! quantization layout transforms, execution options and session policy,
//! single-use stream nodes, plan metrics aggregation and plan running.

pub mod error;
pub mod metrics;
pub mod one_shot;
pub mod options;
pub mod pq;
pub mod runner;
pub mod session;
