//! What a service is, and the errors of the registry and of the locks.

use vstd::prelude::*;

verus! {

/// A long-lived singleton offered to several subsystems. `init` builds it
/// with no arguments; `post_init` brings it to its ready state.
pub trait Service: Send + Sync + 'static {
    fn init() -> Self where Self: Sized;

    fn post_init(&mut self);
}

/// The recoverable failures of the registry and of the per-service locks.
#[derive(Clone, Copy, Debug, PartialEq, Eq, Structural)]
pub enum ServiceError {
    /// The service was resolved before it was registered.
    ServiceNotFound,
    /// The service's key is already present; the live entry stays.
    ServiceAlreadyRegistered,
    /// An earlier holder ended abnormally while it held exclusive access to
    /// the registry's structure.
    RegistryPoisoned,
    /// An earlier holder ended abnormally while it held exclusive access to
    /// a service or to one of its slots.
    ServicePoisoned,
}

} // verus!
