//! Single-slot, latest-value-wins event channels.
//!
//! Both controller channels (inbound actions, outbound value notifications)
//! share this shape: a publish before the consumer's next take overwrites any
//! unconsumed prior value, so the consumer only ever sees the most recent
//! one. Every action is self-contained, so a missed intermediate value costs
//! nothing but a skipped intermediate command.

use vstd::prelude::*;

verus! {

/// A single-slot channel holding at most the latest published value.
pub struct Slot<T: Copy> {
    /// The latest published value not yet consumed, if any.
    pub current: Option<T>,
}

/// The slot after a value is published into it: only the latest value is
/// kept, whatever was there before.
pub open spec fn publish_spec<T: Copy>(s: Slot<T>, v: T) -> Slot<T> {
    Slot { current: Some(v) }
}

impl<T: Copy> Slot<T> {
    /// An empty slot.
    pub fn empty() -> (s: Self)
        ensures
            s.current is None,
    {
        Slot { current: None }
    }

    /// Publishes a value, overwriting any unconsumed one.
    pub fn publish(&mut self, v: T)
        ensures
            *final(self) == publish_spec(*old(self), v),
            final(self).current == Some(v),
    {
        self.current = Some(v);
    }

    /// Consumes and returns the latest published value, if one is pending.
    pub fn take(&mut self) -> (r: Option<T>)
        ensures
            r == old(self).current,
            final(self).current is None,
    {
        let r: Option<T> = self.current;
        self.current = None;
        r
    }
}

/// Latest wins: two publishes before the consumer's next take leave only the
/// second value in the slot, whatever the slot held before.
pub proof fn lemma_latest_wins<T: Copy>(s: Slot<T>, a: T, b: T)
    ensures
        publish_spec(publish_spec(s, a), b).current == Some(b),
{
}

} // verus!
