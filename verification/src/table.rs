//! The shared session table: a map from session id to record behind a
//! reader-writer lock.
//!
//! Other parts of a system create and remove sessions in the same table at
//! any time, so nothing is known here of what the table holds between two
//! acquisitions of the lock. What is known is what the map under one guard
//! holds, and that is what the phases in [`crate::session`] speak of.

use crate::session::SessionRecord;
use std::collections::HashMap;
use vstd::prelude::*;

verus! {

/// `parking_lot::RawRwLock`, the raw lock inside a `parking_lot::RwLock`.
/// Nothing is known of a value of it.
#[verifier::external_type_specification]
#[verifier::external_body]
pub struct ExRawRwLock(parking_lot::RawRwLock);

/// `lock_api::RwLock`, which `parking_lot::RwLock` is an alias of. Nothing
/// is known of a value of it: what it protects is reached only through the
/// functions below.
#[verifier::external_type_specification]
#[verifier::external_body]
#[verifier::reject_recursive_types(R)]
#[verifier::reject_recursive_types(T)]
pub struct ExRwLock<R, T: ?Sized>(parking_lot::lock_api::RwLock<R, T>);

/// The session table as it is shared: the map and its lock.
pub type SessionTable = parking_lot::RwLock<HashMap<i64, SessionRecord>>;

/// Shared access to the table, held until the value is dropped.
///
/// Holds a `parking_lot::RwLockReadGuard`. The guard's type is bounded by a
/// trait of `lock_api` that the verifier does not know, so the guard is kept
/// in here, where the verifier does not look.
#[verifier::external_body]
pub(crate) struct SharedAccess<'a> {
    guard: parking_lot::RwLockReadGuard<'a, HashMap<i64, SessionRecord>>,
}

/// Exclusive access to the table, held until the value is dropped.
///
/// Holds a `parking_lot::RwLockWriteGuard`, kept in here for the same reason
/// as the read guard in [`SharedAccess`].
#[verifier::external_body]
pub(crate) struct ExclusiveAccess<'a> {
    guard: parking_lot::RwLockWriteGuard<'a, HashMap<i64, SessionRecord>>,
}

/// Calls `RwLock::read`: waits until no writer holds or awaits the lock,
/// then takes shared access. Nothing is claimed of what the table then
/// holds.
///
/// The call may never return while the calling thread itself holds access
/// of either kind, so it is made only where no guard is alive.
#[verifier::external_body]
pub(crate) fn acquire_shared<'a>(table: &'a SessionTable) -> (access: SharedAccess<'a>) {
    SharedAccess { guard: table.read() }
}

/// Calls `RwLock::write`: waits until nobody else holds the lock, then takes
/// exclusive access. Nothing is claimed of what the table then holds.
///
/// The call never returns while the calling thread itself holds access of
/// either kind, so it is made only where no guard is alive.
#[verifier::external_body]
pub(crate) fn acquire_exclusive<'a>(table: &'a SessionTable) -> (access: ExclusiveAccess<'a>) {
    ExclusiveAccess { guard: table.write() }
}

/// Calls `Deref::deref` on the read guard: the map that the lock protects.
#[verifier::external_body]
pub(crate) fn shared_map<'a, 'b>(access: &'b SharedAccess<'a>) -> (map: &'b HashMap<
    i64,
    SessionRecord,
>) {
    &*access.guard
}

/// Calls `DerefMut::deref_mut` on the write guard: the map that the lock
/// protects, open to change.
#[verifier::external_body]
pub(crate) fn exclusive_map<'a, 'b>(access: &'b mut ExclusiveAccess<'a>) -> (map: &'b mut HashMap<
    i64,
    SessionRecord,
>) {
    &mut *access.guard
}

} // verus!
