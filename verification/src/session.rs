//! Session records, and the two phases in which a record is brought up to
//! date: a look under shared access, then a write under exclusive access.
//!
//! Both phases are written against a plain map, and say exactly what they
//! return and change. Whoever holds the table's lock hands them the map.

use std::collections::HashMap;
use vstd::prelude::*;
use vstd::std_specs::hash::*;

verus! {

broadcast use group_hash_axioms;

/// What the table keeps for one session.
///
/// The three address fields always change together.
#[derive(Clone, Copy, Debug, PartialEq, Eq)]
pub struct SessionRecord {
    /// The key under which the record is filed. The reflector never
    /// changes it.
    pub session_id: i64,
    /// The port the session's traffic was last seen to come from.
    pub observed_port: u16,
    /// The IPv4 address the session's traffic was last seen to come from.
    pub observed_addr: [u8; 4],
    /// The address the client last claimed to have on its own network.
    pub claimed_local_addr: [u8; 4],
}

/// What one request shows of its sender.
#[derive(Clone, Copy, Debug, PartialEq, Eq)]
pub struct Observation {
    /// The IPv4 address the datagram came from.
    pub addr: [u8; 4],
    /// The port the datagram came from.
    pub port: u16,
    /// The local address named in the datagram.
    pub claimed_local_addr: [u8; 4],
}

/// How a session stands against a fresh observation.
#[derive(Clone, Copy, Debug, PartialEq, Eq, Structural)]
pub enum Standing {
    /// The table has no record of the session.
    Unknown,
    /// The record already holds what was observed.
    Current,
    /// The record holds something else and is to be rewritten.
    Stale,
}

impl SessionRecord {
    /// Whether the record already holds what was observed.
    pub open spec fn agrees_with(self, seen: Observation) -> bool {
        &&& self.observed_port == seen.port
        &&& self.observed_addr == seen.addr
        &&& self.claimed_local_addr == seen.claimed_local_addr
    }

    /// The record with all three address fields taken from the observation.
    pub open spec fn refreshed(self, seen: Observation) -> SessionRecord {
        SessionRecord {
            session_id: self.session_id,
            observed_port: seen.port,
            observed_addr: seen.addr,
            claimed_local_addr: seen.claimed_local_addr,
        }
    }

    /// Tells whether the record already holds what was observed.
    pub fn is_current(&self, seen: &Observation) -> (current: bool)
        ensures
            current == self.agrees_with(*seen),
    {
        self.observed_port == seen.port && same_addr(&self.observed_addr, &seen.addr) && same_addr(
            &self.claimed_local_addr,
            &seen.claimed_local_addr,
        )
    }

    /// Overwrites the three address fields with what was observed.
    pub fn refresh(&mut self, seen: &Observation)
        ensures
            *final(self) == old(self).refreshed(*seen),
    {
        self.observed_port = seen.port;
        self.observed_addr = seen.addr;
        self.claimed_local_addr = seen.claimed_local_addr;
    }
}

/// Tells whether two IPv4 addresses are the same.
pub fn same_addr(a: &[u8; 4], b: &[u8; 4]) -> (same: bool)
    ensures
        same == (*a == *b),
{
    let same = a[0] == b[0] && a[1] == b[1] && a[2] == b[2] && a[3] == b[3];
    assert(same == (*a =~= *b));
    same
}

/// How session `id` stands in `table` against `seen`.
pub open spec fn standing_in(table: Map<i64, SessionRecord>, id: i64, seen: Observation) -> Standing {
    if !table.contains_key(id) {
        Standing::Unknown
    } else if table[id].agrees_with(seen) {
        Standing::Current
    } else {
        Standing::Stale
    }
}

/// The table after the write phase: the record of `id` refreshed if there
/// is one, and nothing changed if there is none.
pub open spec fn rewritten(table: Map<i64, SessionRecord>, id: i64, seen: Observation) -> Map<
    i64,
    SessionRecord,
> {
    if table.contains_key(id) {
        table.insert(id, table[id].refreshed(seen))
    } else {
        table
    }
}

/// The read phase: looks the session up and compares its record with what
/// was observed. Changes nothing.
pub fn read_phase(table: &HashMap<i64, SessionRecord>, id: i64, seen: &Observation) -> (standing:
    Standing)
    ensures
        standing == standing_in(table@, id, *seen),
{
    match table.get(&id) {
        None => Standing::Unknown,
        Some(record) => if record.is_current(seen) {
            Standing::Current
        } else {
            Standing::Stale
        },
    }
}

/// The write phase: looks the session up again and, if it is still there,
/// overwrites its three address fields in one step. A session that is gone
/// is left alone.
///
/// Returns whether a record was there to write.
pub fn write_phase(table: &mut HashMap<i64, SessionRecord>, id: i64, seen: &Observation) -> (written:
    bool)
    ensures
        written == old(table)@.contains_key(id),
        final(table)@ == rewritten(old(table)@, id, *seen),
{
    let found = match table.get(&id) {
        None => None,
        Some(record) => Some(*record),
    };
    match found {
        None => false,
        Some(record) => {
            let mut record = record;
            record.refresh(seen);
            table.insert(id, record);
            true
        },
    }
}

/// A write never leaves a record half old and half new: after the write
/// phase every record of the table is either exactly what it was, or what
/// it was with all three address fields taken from the observation, and
/// only the record of `id` can be the latter. No session appears or
/// disappears.
pub proof fn law_write_is_whole(table: Map<i64, SessionRecord>, id: i64, seen: Observation, key: i64)
    ensures
        rewritten(table, id, seen).dom() == table.dom(),
        table.contains_key(key) && key != id ==> rewritten(table, id, seen)[key] == table[key],
        table.contains_key(id) ==> {
            &&& rewritten(table, id, seen)[id].session_id == table[id].session_id
            &&& rewritten(table, id, seen)[id].observed_port == seen.port
            &&& rewritten(table, id, seen)[id].observed_addr == seen.addr
            &&& rewritten(table, id, seen)[id].claimed_local_addr == seen.claimed_local_addr
        },
{
    assert(rewritten(table, id, seen).dom() =~= table.dom());
}

/// Once a record has been written it agrees with the observation, so the
/// same observation finds it current and writes nothing more.
pub proof fn law_written_record_is_current(table: Map<i64, SessionRecord>, id: i64, seen: Observation)
    requires
        table.contains_key(id),
    ensures
        standing_in(rewritten(table, id, seen), id, seen) == Standing::Current,
        rewritten(rewritten(table, id, seen), id, seen) == rewritten(table, id, seen),
{
    assert(rewritten(rewritten(table, id, seen), id, seen) =~= rewritten(table, id, seen));
}

} // verus!
