//! What the consumer knows of the device's properties: for each group the
//! last batch and the time it came.

use crate::types::{views, PropertyData, PropertyDataView, PropertyKind};
use vstd::prelude::*;

verus! {

/// The last batch of one group, and the time in milliseconds at which it
/// came; no time while none has come.
pub type Slot = (Vec<PropertyData>, Option<u64>);

/// Model of a [`Slot`].
pub type SlotView = (Seq<PropertyDataView>, Option<u64>);

/// The view of a slot.
pub open spec fn slot_view(slot: Slot) -> SlotView {
    (views(slot.0@), slot.1)
}

/// One slot for each group of properties.
pub struct PropertyStorage {
    pub general: Slot,
    pub failure: Slot,
    pub operation: Slot,
    pub io: Slot,
}

/// Model of a [`PropertyStorage`].
pub struct StorageView {
    pub general: SlotView,
    pub failure: SlotView,
    pub operation: SlotView,
    pub io: SlotView,
}

impl StorageView {
    /// The slot of a group.
    pub open spec fn slot(self, kind: PropertyKind) -> SlotView {
        match kind {
            PropertyKind::General => self.general,
            PropertyKind::Failure => self.failure,
            PropertyKind::Operation => self.operation,
            PropertyKind::Io => self.io,
        }
    }

    /// The storage with the slot of one group replaced.
    pub open spec fn with_slot(self, kind: PropertyKind, slot: SlotView) -> StorageView {
        match kind {
            PropertyKind::General => StorageView { general: slot, ..self },
            PropertyKind::Failure => StorageView { failure: slot, ..self },
            PropertyKind::Operation => StorageView { operation: slot, ..self },
            PropertyKind::Io => StorageView { io: slot, ..self },
        }
    }

    /// The storage in which nothing is known.
    pub open spec fn empty() -> StorageView {
        StorageView {
            general: (Seq::empty(), None),
            failure: (Seq::empty(), None),
            operation: (Seq::empty(), None),
            io: (Seq::empty(), None),
        }
    }

    /// The same batches, with every time forgotten.
    pub open spec fn stale(self) -> StorageView {
        StorageView {
            general: (self.general.0, None),
            failure: (self.failure.0, None),
            operation: (self.operation.0, None),
            io: (self.io.0, None),
        }
    }
}

impl View for PropertyStorage {
    type V = StorageView;

    open spec fn view(&self) -> StorageView {
        StorageView {
            general: slot_view(self.general),
            failure: slot_view(self.failure),
            operation: slot_view(self.operation),
            io: slot_view(self.io),
        }
    }
}

fn empty_slot() -> (res: Slot)
    ensures
        slot_view(res) == (Seq::<PropertyDataView>::empty(), None::<u64>),
{
    let data: Vec<PropertyData> = Vec::new();
    assert(views(data@) =~= Seq::empty());
    (data, None)
}

impl Default for PropertyStorage {
    fn default() -> (res: Self)
        ensures
            res@ == StorageView::empty(),
    {
        PropertyStorage {
            general: empty_slot(),
            failure: empty_slot(),
            operation: empty_slot(),
            io: empty_slot(),
        }
    }
}

impl PropertyStorage {
    /// The slot of a group.
    pub fn get(&self, kind: PropertyKind) -> (res: &Slot)
        ensures
            slot_view(*res) == self@.slot(kind),
    {
        match kind {
            PropertyKind::General => &self.general,
            PropertyKind::Failure => &self.failure,
            PropertyKind::Operation => &self.operation,
            PropertyKind::Io => &self.io,
        }
    }

    /// The slot of a group, to be written to. What the caller leaves in it
    /// is what the storage then holds for the group; the other groups stay
    /// as they are.
    pub fn get_mut(&mut self, kind: PropertyKind) -> (res: &mut Slot)
        ensures
            slot_view(*res) == old(self)@.slot(kind),
            final(self)@ == old(self)@.with_slot(kind, slot_view(*final(res))),
    {
        match kind {
            PropertyKind::General => &mut self.general,
            PropertyKind::Failure => &mut self.failure,
            PropertyKind::Operation => &mut self.operation,
            PropertyKind::Io => &mut self.io,
        }
    }

    /// Forgets everything: every batch and every time.
    pub fn clear(&mut self)
        ensures
            final(self)@ == StorageView::empty(),
    {
        self.general = empty_slot();
        self.failure = empty_slot();
        self.operation = empty_slot();
        self.io = empty_slot();
    }

    /// Puts a batch in the place of what was known of its group, whole,
    /// and notes the time. The other groups stay as they are.
    pub fn store(&mut self, kind: PropertyKind, data: Vec<PropertyData>, now: u64)
        ensures
            final(self)@ == old(self)@.with_slot(kind, (views(data@), Some(now))),
    {
        match kind {
            PropertyKind::General => {
                self.general = (data, Some(now));
            },
            PropertyKind::Failure => {
                self.failure = (data, Some(now));
            },
            PropertyKind::Operation => {
                self.operation = (data, Some(now));
            },
            PropertyKind::Io => {
                self.io = (data, Some(now));
            },
        }
    }

    /// Forgets every time and keeps the batches, so that every group is
    /// due again.
    pub fn mark_stale(&mut self)
        ensures
            final(self)@ == old(self)@.stale(),
    {
        self.general.1 = None;
        self.failure.1 = None;
        self.operation.1 = None;
        self.io.1 = None;
    }
}

} // verus!
