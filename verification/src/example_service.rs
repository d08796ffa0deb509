//! A small service that counts how often it was asked.

use crate::service::Service;
use std::sync::atomic::AtomicUsize;
use std::sync::atomic::Ordering;
use vstd::prelude::*;

verus! {

/// Counts frames. The counter is atomic, so holders of shared access can
/// count at the same time without losing an increment.
pub struct ExampleService {
    frame: AtomicUsize,
}

impl ExampleService {
    /// Raises the counter by one in a single atomic step and returns what it
    /// held before. The counter wraps around at `usize::MAX`.
    pub fn count(&self) -> (before: usize) {
        self.frame.fetch_add(1, Ordering::Relaxed)
    }
}

impl Service for ExampleService {
    fn init() -> Self {
        ExampleService { frame: AtomicUsize::new(0) }
    }

    fn post_init(&mut self) {
    }
}

} // verus!
