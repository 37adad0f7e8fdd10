//! The operation group of the container-service surface: one invocation
//! builder per operation.

pub mod container_services;
