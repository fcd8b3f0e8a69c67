//! Request decoding for functions that run behind a load balancer: an inbound
//! envelope becomes either itself or a typed request, and the invocation
//! context travels beside it unchanged.

pub mod deserializer;
pub mod envelope;
pub mod error;
pub mod model;
