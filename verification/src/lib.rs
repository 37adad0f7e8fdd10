//! Generation core for versioned REST API client bindings.
//!
//! The crate covers three things: resolving which of several versioned tags
//! is the default one, emitting the feature section of a package manifest
//! that exposes each tag as a selectable feature, and the state machine that
//! drives one generated operation call (URL construction, authentication,
//! status-code dispatch and its closed error taxonomy).

pub mod advisor;
pub mod binding;
pub mod compute;
pub mod manifest;
pub mod tags;
pub mod text;
pub mod urls;
