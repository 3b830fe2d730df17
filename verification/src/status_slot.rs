//! The slot through which the status reaches those who watch it. It holds one
//! status, the latest. The writer overwrites it; a watcher learns that it has
//! changed and then reads what is there, so that it never sees a status that
//! has been overwritten in the meantime.

use crate::report::Report;
use vstd::prelude::*;

verus! {

/// The slot: the latest status, and a stamp that changes with every status
/// that is published.
#[derive(Debug, Clone, Copy, PartialEq, Eq)]
pub struct StatusSlot {
    value: Report,
    version: u64,
}

/// One who watches a slot: it remembers the stamp of the status it saw last.
#[derive(Debug, Clone, Copy, PartialEq, Eq, Structural)]
pub struct Watcher {
    seen: u64,
}

/// The stamp that follows `version`. The stamps go round after
/// 2<sup>64</sup> steps.
pub open spec fn next_version(version: u64) -> u64 {
    if version == u64::MAX {
        0
    } else {
        (version + 1) as u64
    }
}

impl StatusSlot {
    /// The status in the slot.
    pub closed spec fn latest(self) -> Report {
        self.value
    }

    /// The stamp of the status in the slot.
    pub closed spec fn version(self) -> u64 {
        self.version
    }

    /// The slot after `value` has been published.
    pub closed spec fn with(self, value: Report) -> StatusSlot {
        StatusSlot { value, version: next_version(self.version) }
    }

    /// The slot after the statuses `values` have been published, one after the
    /// other.
    pub open spec fn with_all(self, values: Seq<Report>) -> StatusSlot
        decreases values.len(),
    {
        if values.len() == 0 {
            self
        } else {
            self.with_all(values.drop_last()).with(values.last())
        }
    }

    /// A slot that holds `initial`.
    pub fn new(initial: Report) -> (slot: StatusSlot)
        ensures
            slot.latest() == initial,
            slot.version() == 0,
    {
        StatusSlot { value: initial, version: 0 }
    }

    /// Puts `value` into the slot, in place of what was there.
    pub fn publish(&mut self, value: Report)
        ensures
            *final(self) == old(self).with(value),
            final(self).latest() == value,
            final(self).version() == next_version(old(self).version()),
    {
        self.value = value;
        self.version = if self.version == u64::MAX {
            0
        } else {
            self.version + 1
        };
    }

    /// The status in the slot.
    pub fn borrow(&self) -> (value: Report)
        ensures
            value == self.latest(),
    {
        self.value
    }

    /// A watcher that has seen what is in the slot now, and will see what is
    /// published from now on.
    pub fn subscribe(&self) -> (watcher: Watcher)
        ensures
            watcher.is_caught_up(*self),
    {
        Watcher { seen: self.version }
    }
}

impl Watcher {
    /// The stamp of the status that the watcher saw last.
    pub closed spec fn seen(self) -> u64 {
        self.seen
    }

    /// Whether the watcher has seen the status that is in the slot.
    pub open spec fn is_caught_up(self, slot: StatusSlot) -> bool {
        self.seen() == slot.version()
    }

    /// What the watcher sees when it looks at the slot: the status in it, if
    /// the watcher has not seen that one yet.
    pub open spec fn sight(self, slot: StatusSlot) -> Option<Report> {
        if self.is_caught_up(slot) {
            None
        } else {
            Some(slot.latest())
        }
    }

    /// Whether the slot holds a status that the watcher has not seen.
    pub fn has_changed(&self, slot: &StatusSlot) -> (b: bool)
        ensures
            b == !self.is_caught_up(*slot),
    {
        self.seen != slot.version
    }

    /// Looks at the slot: gives the status in it if the watcher has not seen
    /// it yet, and remembers it as seen.
    pub fn changed(&mut self, slot: &StatusSlot) -> (seen: Option<Report>)
        ensures
            seen == old(self).sight(*slot),
            final(self).is_caught_up(*slot),
    {
        if self.seen != slot.version {
            self.seen = slot.version;
            Some(slot.value)
        } else {
            None
        }
    }
}

proof fn lemma_version_after(slot: StatusSlot, values: Seq<Report>)
    ensures
        slot.with_all(values).version() == (slot.version() + values.len()) % 0x1_0000_0000_0000_0000,
        values.len() > 0 ==> slot.with_all(values).latest() == values.last(),
    decreases values.len(),
{
    if values.len() > 0 {
        lemma_version_after(slot, values.drop_last());
    }
}

/// A watcher that has missed any number of statuses sees the latest of them
/// and none of those before it; once it has seen that one, there is nothing
/// more to see until the next is published.
pub proof fn lemma_watcher_sees_latest(slot: StatusSlot, watcher: Watcher, values: Seq<Report>)
    requires
        watcher.is_caught_up(slot),
        0 < values.len() < 0x1_0000_0000_0000_0000,
    ensures
        watcher.sight(slot.with_all(values)) == Some(values.last()),
        forall|after: Watcher|
            after.is_caught_up(slot.with_all(values)) ==> after.sight(slot.with_all(values))
                is None,
{
    lemma_version_after(slot, values);
}

/// Publishing overwrites: what was in the slot before does not matter to what
/// is in it afterwards.
pub proof fn lemma_publish_overwrites(a: StatusSlot, b: StatusSlot, value: Report)
    ensures
        a.with(value).latest() == value,
        a.with(value).latest() == b.with(value).latest(),
{
}

} // verus!
