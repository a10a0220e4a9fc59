use vstd::prelude::*;
use vstd::rwlock::RwLock;

use crate::power::PowerValue;

verus! {

/// The single gauge of this exporter: the most recently published power
/// value, or nothing before the first successful poll.
///
/// The poll loop is the sole writer and scrape handlers are readers. The
/// registry itself is sequential and carries the exact value contracts;
/// [`SharedRegistry`] is the handle that the two activities share.
pub struct MetricRegistry {
    value: Option<PowerValue>,
}

impl View for MetricRegistry {
    type V = Option<PowerValue>;

    closed spec fn view(&self) -> Option<PowerValue> {
        self.value
    }
}

impl MetricRegistry {
    /// A registry that has not yet seen a value.
    pub fn new() -> (r: MetricRegistry)
        ensures
            r@ is None,
    {
        MetricRegistry { value: None }
    }

    /// Overwrites the current value with `v`.
    pub fn set(&mut self, v: PowerValue)
        ensures
            final(self)@ == Some(v),
    {
        self.value = Some(v);
    }

    /// The current value: `None` before any `set`, otherwise exactly the
    /// value most recently passed to `set`.
    pub fn snapshot(&self) -> (r: Option<PowerValue>)
        ensures
            r == self@,
    {
        self.value
    }
}

/// The shared handle over the one registry, owned jointly by the poll
/// loop and the exposition server for the process lifetime.
///
/// A reader–writer lock guards the registry, so every `set` and every
/// `snapshot` is one whole-value critical section: a concurrent reader
/// observes either the old value or the new one in full, never a mix.
/// What each call returns under a given interleaving cannot be promised
/// here; the per-call value contracts live on [`MetricRegistry`], which
/// each critical section works on.
pub struct SharedRegistry {
    lock: RwLock<MetricRegistry, spec_fn(MetricRegistry) -> bool>,
}

impl SharedRegistry {
    /// The lock admits every registry state: the registry needs no
    /// invariant of its own, only atomic handoff.
    #[verifier::type_invariant]
    spec fn wf(self) -> bool {
        forall|registry: MetricRegistry| self.lock.inv(registry)
    }

    /// A shared handle over a registry that has not yet seen a value.
    pub fn new() -> (s: SharedRegistry) {
        let lock = RwLock::new(MetricRegistry::new(), Ghost(|registry: MetricRegistry| true));
        SharedRegistry { lock }
    }

    /// Publishes `v`: overwrites the current value under mutual
    /// exclusion, holding the lock only for the write itself.
    pub fn set(&self, v: PowerValue) {
        proof {
            use_type_invariant(self);
        }
        let (mut registry, handle) = self.lock.acquire_write();
        registry.set(v);
        handle.release_write(registry);
    }

    /// Copies the current value out under the lock: `None` before the
    /// first `set`, otherwise the value of some completed `set`.
    pub fn snapshot(&self) -> (r: Option<PowerValue>) {
        let handle = self.lock.acquire_read();
        let r = handle.borrow().snapshot();
        handle.release_read();
        r
    }
}

} // verus!
