//! Tiered polling: which group of properties is read next. Each group has
//! its own interval, the groups are looked at in a fixed order, and at
//! most one of them is asked for at a time.

use crate::storage::{PropertyStorage, StorageView};
use crate::types::PropertyKind;
use vstd::prelude::*;

verus! {

/// The scheduler looks at most once in this many milliseconds.
pub const THROTTLE_MS: u64 = 500;

/// The order in which the groups are looked at: the one that is read most
/// often comes first.
pub open spec fn priority() -> Seq<PropertyKind> {
    seq![PropertyKind::Io, PropertyKind::Operation, PropertyKind::Failure, PropertyKind::General]
}

/// The interval of a group, in milliseconds.
pub open spec fn interval_ms(kind: PropertyKind) -> u64 {
    match kind {
        PropertyKind::Io => 500,
        PropertyKind::Operation => 1000,
        PropertyKind::Failure => 5000,
        PropertyKind::General => 30000,
    }
}

/// The milliseconds from `then` to `now`; none where `then` is the later
/// of the two.
pub open spec fn elapsed_ms(now: u64, then: u64) -> u64 {
    if now >= then {
        (now - then) as u64
    } else {
        0
    }
}

/// A group is due when nothing is known of it, or when what is known is
/// as old as the group's interval.
pub open spec fn is_due(storage: StorageView, kind: PropertyKind, now: u64) -> bool {
    match storage.slot(kind).1 {
        None => true,
        Some(then) => elapsed_ms(now, then) >= interval_ms(kind),
    }
}

/// Whether `kind` is the first group in the order that is due.
pub open spec fn is_first_due(storage: StorageView, kind: PropertyKind, now: u64) -> bool {
    exists|i: int|
        0 <= i < priority().len() && #[trigger] priority()[i] == kind && is_due(storage, kind, now)
            && forall|j: int| 0 <= j < i ==> !is_due(storage, #[trigger] priority()[j], now)
}

/// The first group in the order that is due, if any is.
pub open spec fn first_due(storage: StorageView, now: u64) -> Option<PropertyKind> {
    if is_due(storage, PropertyKind::Io, now) {
        Some(PropertyKind::Io)
    } else if is_due(storage, PropertyKind::Operation, now) {
        Some(PropertyKind::Operation)
    } else if is_due(storage, PropertyKind::Failure, now) {
        Some(PropertyKind::Failure)
    } else if is_due(storage, PropertyKind::General, now) {
        Some(PropertyKind::General)
    } else {
        None
    }
}

/// Priority: what `first_due` names is due and no group before it in the
/// order is; it names none only when no group is due.
pub proof fn lemma_first_due_is_first(storage: StorageView, now: u64)
    ensures
        match first_due(storage, now) {
            Some(kind) => is_first_due(storage, kind, now),
            None => forall|kind: PropertyKind| !is_due(storage, kind, now),
        },
{
    let order = priority();
    match first_due(storage, now) {
        Some(PropertyKind::Io) => {
            assert(order[0] == PropertyKind::Io);
        },
        Some(PropertyKind::Operation) => {
            assert(order[1] == PropertyKind::Operation);
        },
        Some(PropertyKind::Failure) => {
            assert(order[2] == PropertyKind::Failure);
        },
        Some(PropertyKind::General) => {
            assert(order[3] == PropertyKind::General);
        },
        None => {},
    }
}

/// The milliseconds from `then` to `now`; none where `then` is the later
/// of the two.
pub fn elapsed(now: u64, then: u64) -> (res: u64)
    ensures
        res == elapsed_ms(now, then),
{
    if now >= then {
        now - then
    } else {
        0
    }
}

/// The interval of a group, in milliseconds.
pub fn interval(kind: PropertyKind) -> (res: u64)
    ensures
        res == interval_ms(kind),
{
    match kind {
        PropertyKind::Io => 500,
        PropertyKind::Operation => 1000,
        PropertyKind::Failure => 5000,
        PropertyKind::General => 30000,
    }
}

/// Whether a group is due at `now`.
pub fn due(storage: &PropertyStorage, kind: PropertyKind, now: u64) -> (res: bool)
    ensures
        res == is_due(storage@, kind, now),
{
    match storage.get(kind).1 {
        None => true,
        Some(then) => elapsed(now, then) >= interval(kind),
    }
}

/// The group to read next: the first in the order that is due.
pub fn next_due(storage: &PropertyStorage, now: u64) -> (res: Option<PropertyKind>)
    ensures
        res == first_due(storage@, now),
        match res {
            Some(kind) => is_first_due(storage@, kind, now),
            None => forall|kind: PropertyKind| !is_due(storage@, kind, now),
        },
{
    proof {
        lemma_first_due_is_first(storage@, now);
    }
    if due(storage, PropertyKind::Io, now) {
        Some(PropertyKind::Io)
    } else if due(storage, PropertyKind::Operation, now) {
        Some(PropertyKind::Operation)
    } else if due(storage, PropertyKind::Failure, now) {
        Some(PropertyKind::Failure)
    } else if due(storage, PropertyKind::General, now) {
        Some(PropertyKind::General)
    } else {
        None
    }
}

} // verus!
