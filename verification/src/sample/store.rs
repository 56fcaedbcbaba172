//! The count that the sample's actions share.
use vstd::prelude::*;

verus! {

/// A counter shared between threads.
pub struct CounterStore {
    count: std::sync::atomic::AtomicI32,
}

impl CounterStore {
    /// A counter at zero.
    pub fn new() -> (r: CounterStore) {
        CounterStore { count: std::sync::atomic::AtomicI32::new(0) }
    }

    /// The current count. Other threads may change it at any time, so nothing is
    /// promised of the value read.
    pub fn count(&self) -> i32 {
        self.count.load(std::sync::atomic::Ordering::SeqCst)
    }

    /// Add `delta` (wrapping on overflow) and return the count that this addition
    /// left. Other threads may add in between, so nothing is promised of the count.
    pub fn add(&self, delta: i32) -> i32 {
        let previous = self.count.fetch_add(delta, std::sync::atomic::Ordering::SeqCst);
        previous.wrapping_add(delta)
    }
}

/// The sample's shared plugin state.
pub struct AppState {
    /// The shared count.
    pub store: CounterStore,
}

impl AppState {
    /// State with the count at zero.
    pub fn new() -> (r: AppState) {
        AppState { store: CounterStore::new() }
    }
}

} // verus!
