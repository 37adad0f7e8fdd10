//! The operation groups of the advisory service surface: one invocation
//! builder per operation, each pinning the substituted URL, the query
//! pairs, the method, the auth requirement and the response map.

pub mod operations;
pub mod recommendations;
pub mod suppressions;
