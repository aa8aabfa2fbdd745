//! Control plane of a benchmarking platform: submission intake, image
//! building, container orchestration and the order-flooding bot fleet,
//! written as verified decision logic around the I/O that drives it.

pub mod bot_fleet;
pub mod builder;
pub mod errors;
pub mod handlers;
pub mod orchestrator;
pub mod paths;
pub mod text;
