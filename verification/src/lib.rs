//! Descriptor vocabulary for a dependency-injection container.
//!
//! A [`ServiceDependency`] records what a service needs from the container:
//! a required contract ([`Type`]) and a [`ServiceCardinality`] saying how many
//! registered providers may satisfy it. The [`resolution`] module states the
//! rule a resolver must apply when it holds the descriptor against the number
//! of providers a lookup found.

pub mod dependency;
pub mod resolution;
pub mod ty;

pub use dependency::ServiceCardinality;
pub use dependency::ServiceDependency;
pub use ty::Type;
