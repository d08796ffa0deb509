//! Concurrency core of a two-loop real-time application: a latest-value
//! double buffer between a producer and a consumer, a type-keyed registry of
//! singleton services, and the lifecycle rules that start and stop the loops.

pub mod example_service;
pub mod graphics_service;
pub mod handoff;
pub mod lifecycle;
pub mod presentation;
pub mod registry;
pub mod service;
pub mod sync;
pub mod tick;
