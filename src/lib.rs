//! A backend-neutral middleware core: a uniform request-to-response contract
//! ([`Service`]), a type-erased handle over it ([`BoxedService`]), a uniform
//! way to wrap one service in another ([`Layer`]), and the step that turns a
//! handler failure into a response instead of letting it escape.
use vstd::prelude::*;

pub mod service;
pub mod layer;
pub mod failure;
pub mod laws;

pub use service::{BoxedService, Readiness, Service};
pub use layer::{stack, Layer};
pub use failure::{contain, Failure};
