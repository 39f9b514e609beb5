//! The handling of one datagram: decode it, bring the session's record up
//! to date, and say what to send back.

use crate::session::{
    law_written_record_is_current, read_phase, rewritten, standing_in, write_phase, Observation,
    SessionRecord, Standing,
};
use crate::table::{acquire_exclusive, acquire_shared, exclusive_map, shared_map, SessionTable};
use crate::wire::{
    claimed_addr_of, decode_request, encode_reply, is_request, reply_bytes, session_id_of,
    REPLY_LEN,
};
use std::collections::HashMap;
use vstd::prelude::*;

verus! {

/// Where a datagram came from.
#[derive(Clone, Copy, Debug, PartialEq, Eq)]
pub enum SourceAddr {
    /// An IPv4 address and port.
    V4 { addr: [u8; 4], port: u16 },
    /// An IPv6 address and port. Such a source is never answered.
    V6 { addr6: [u8; 16], port: u16 },
}

/// Why a datagram was dropped without an answer.
#[derive(Clone, Copy, Debug, PartialEq, Eq, Structural)]
pub enum DiscardReason {
    /// Not 13 bytes long, or not tagged as a reflection request.
    Malformed,
    /// Well formed, but sent from an IPv6 address.
    Ipv6Source,
    /// Well formed and from an IPv4 address, but the table had no record of
    /// the session when it was looked up.
    UnknownSession,
}

/// What became of a datagram.
#[derive(Clone, Copy, Debug, PartialEq, Eq)]
pub enum Outcome {
    /// These nine bytes go back to where the datagram came from.
    Reply([u8; 9]),
    /// Nothing goes back.
    Discarded(DiscardReason),
}

/// What a datagram asks for, before the table is looked at: the session to
/// bring up to date and what was observed of it, or the reason to drop the
/// datagram. The format is judged first, the address family second.
pub open spec fn triaged(datagram: Seq<u8>, source: SourceAddr) -> Result<
    (i64, Observation),
    DiscardReason,
> {
    if !is_request(datagram) {
        Err(DiscardReason::Malformed)
    } else {
        match source {
            SourceAddr::V6 { .. } => Err(DiscardReason::Ipv6Source),
            SourceAddr::V4 { addr, port } => Ok(
                (
                    session_id_of(datagram),
                    Observation { addr, port, claimed_local_addr: claimed_addr_of(datagram) },
                ),
            ),
        }
    }
}

/// What a well-formed IPv4 request comes to: a reply that echoes the
/// observed address and port if the session was known, nothing if not.
pub open spec fn concluded(known: bool, seen: Observation) -> Outcome {
    if known {
        Outcome::Reply(reply_bytes(seen.addr, seen.port))
    } else {
        Outcome::Discarded(DiscardReason::UnknownSession)
    }
}

/// What becomes of a datagram when nobody else changes `table` meanwhile.
pub open spec fn outcome_on(
    table: Map<i64, SessionRecord>,
    datagram: Seq<u8>,
    source: SourceAddr,
) -> Outcome {
    match triaged(datagram, source) {
        Err(why) => Outcome::Discarded(why),
        Ok((id, seen)) => concluded(table.contains_key(id), seen),
    }
}

/// What `table` holds after a datagram when nobody else changes it
/// meanwhile.
pub open spec fn table_after(
    table: Map<i64, SessionRecord>,
    datagram: Seq<u8>,
    source: SourceAddr,
) -> Map<i64, SessionRecord> {
    match triaged(datagram, source) {
        Err(_) => table,
        Ok((id, seen)) => rewritten(table, id, seen),
    }
}

/// Whether `outcome` is one that a datagram can have against a table that
/// others change meanwhile: the one outcome that the datagram itself
/// settles, or, for a well-formed request from an IPv4 source, either the
/// reply or the silence that the table decides between.
pub open spec fn may_come_of(datagram: Seq<u8>, source: SourceAddr, outcome: Outcome) -> bool {
    match triaged(datagram, source) {
        Err(why) => outcome == Outcome::Discarded(why),
        Ok((_, seen)) => outcome == concluded(true, seen) || outcome == concluded(false, seen),
    }
}

/// Judges a datagram before the table is looked at.
pub fn triage(datagram: &[u8], source: &SourceAddr) -> (verdict: Result<
    (i64, Observation),
    DiscardReason,
>)
    ensures
        verdict == triaged(datagram@, *source),
{
    match decode_request(datagram) {
        None => Err(DiscardReason::Malformed),
        Some(request) => match source {
            SourceAddr::V6 { .. } => Err(DiscardReason::Ipv6Source),
            SourceAddr::V4 { addr, port } => Ok(
                (
                    request.session_id,
                    Observation {
                        addr: *addr,
                        port: *port,
                        claimed_local_addr: request.claimed_local_addr,
                    },
                ),
            ),
        },
    }
}

/// Says what a well-formed IPv4 request comes to, given whether its session
/// was known.
pub fn conclude(known: bool, seen: &Observation) -> (outcome: Outcome)
    ensures
        outcome == concluded(known, *seen),
{
    if known {
        Outcome::Reply(encode_reply(&seen.addr, seen.port))
    } else {
        Outcome::Discarded(DiscardReason::UnknownSession)
    }
}

/// Handles one datagram against the shared table.
///
/// The record is brought up to date in two phases. Under shared access the
/// session is looked up and compared with what was observed; a session that
/// is not there ends the handling, and one whose record already agrees
/// needs no write. Only where the record differs is exclusive access taken,
/// and the session looked up again, since it may have gone in between: if it
/// is still there all three fields are overwritten, if not nothing is
/// written and nothing is sent. No access is held when the function
/// returns, and none is held while another is taken.
///
/// What the table holds is in the hands of everyone who shares it, so the
/// contract says what holds whatever was found there; [`apply_datagram`]
/// says the rest for a table that nobody else touches.
pub fn handle_datagram(table: &SessionTable, datagram: &[u8], source: &SourceAddr) -> (outcome:
    Outcome)
    ensures
        !is_request(datagram@) ==> outcome == Outcome::Discarded(DiscardReason::Malformed),
        is_request(datagram@) && source is V6 ==> outcome == Outcome::Discarded(
            DiscardReason::Ipv6Source,
        ),
        may_come_of(datagram@, *source, outcome),
{
    let (id, seen) = match triage(datagram, source) {
        Err(why) => {
            return Outcome::Discarded(why);
        },
        Ok(wanted) => wanted,
    };
    let standing = {
        let access = acquire_shared(table);
        read_phase(shared_map(&access), id, &seen)
    };
    let known = match standing {
        Standing::Unknown => false,
        Standing::Current => true,
        Standing::Stale => {
            let mut access = acquire_exclusive(table);
            write_phase(exclusive_map(&mut access), id, &seen)
        },
    };
    conclude(known, &seen)
}

/// Handles one datagram against a table that the caller alone holds.
///
/// The same two phases as in [`handle_datagram`], with nothing able to
/// happen between them.
pub fn apply_datagram(
    table: &mut HashMap<i64, SessionRecord>,
    datagram: &[u8],
    source: &SourceAddr,
) -> (outcome: Outcome)
    ensures
        outcome == outcome_on(old(table)@, datagram@, *source),
        final(table)@ == table_after(old(table)@, datagram@, *source),
        !is_request(datagram@) ==> {
            &&& outcome == Outcome::Discarded(DiscardReason::Malformed)
            &&& final(table)@ == old(table)@
        },
        is_request(datagram@) && source is V6 ==> {
            &&& outcome == Outcome::Discarded(DiscardReason::Ipv6Source)
            &&& final(table)@ == old(table)@
        },
        is_request(datagram@) && !old(table)@.contains_key(session_id_of(datagram@)) ==> {
            &&& outcome is Discarded
            &&& final(table)@ == old(table)@
        },
        is_request(datagram@) && old(table)@.contains_key(session_id_of(datagram@)) ==> (
        *source matches SourceAddr::V4 { addr, port } ==> outcome == Outcome::Reply(
            reply_bytes(addr, port),
        )),
{
    let (id, seen) = match triage(datagram, source) {
        Err(why) => {
            return Outcome::Discarded(why);
        },
        Ok(wanted) => wanted,
    };
    let known = match read_phase(table, id, &seen) {
        Standing::Unknown => false,
        Standing::Current => {
            assert(old(table)@ =~= rewritten(old(table)@, id, seen));
            true
        },
        Standing::Stale => write_phase(table, id, &seen),
    };
    conclude(known, &seen)
}

/// A datagram that is not a request is dropped as malformed, whatever its
/// source and whatever the table holds, and the table stays as it is.
pub proof fn law_malformed_is_dropped(
    table: Map<i64, SessionRecord>,
    datagram: Seq<u8>,
    source: SourceAddr,
)
    requires
        datagram.len() != 13 || datagram[0] != 1,
    ensures
        outcome_on(table, datagram, source) == Outcome::Discarded(DiscardReason::Malformed),
        table_after(table, datagram, source) == table,
{
}

/// A request for a session that the table does not hold gets no reply, and
/// the table stays as it is.
pub proof fn law_unknown_session_is_dropped(
    table: Map<i64, SessionRecord>,
    datagram: Seq<u8>,
    source: SourceAddr,
)
    requires
        is_request(datagram),
        !table.contains_key(session_id_of(datagram)),
    ensures
        outcome_on(table, datagram, source) is Discarded,
        table_after(table, datagram, source) == table,
{
}

/// A request from an IPv6 source gets no reply, whatever the table holds,
/// and the table stays as it is.
pub proof fn law_ipv6_is_dropped(
    table: Map<i64, SessionRecord>,
    datagram: Seq<u8>,
    source: SourceAddr,
)
    requires
        is_request(datagram),
        source is V6,
    ensures
        outcome_on(table, datagram, source) == Outcome::Discarded(DiscardReason::Ipv6Source),
        table_after(table, datagram, source) == table,
{
}

/// A request from an IPv4 source for a session that the table holds gets a
/// reply of nine bytes: three zero bytes, the four bytes of the source
/// address, and the source port with its high byte first.
pub proof fn law_known_session_is_answered(
    table: Map<i64, SessionRecord>,
    datagram: Seq<u8>,
    addr: [u8; 4],
    port: u16,
)
    requires
        is_request(datagram),
        table.contains_key(session_id_of(datagram)),
    ensures
        outcome_on(table, datagram, SourceAddr::V4 { addr, port }) matches Outcome::Reply(reply)
            && {
            &&& reply@.len() == REPLY_LEN
            &&& reply[0] == 0 && reply[1] == 0 && reply[2] == 0
            &&& reply[3] == addr[0] && reply[4] == addr[1] && reply[5] == addr[2] && reply[6]
                == addr[3]
            &&& 256 * reply[7] + reply[8] == port
        },
{
}

/// Handling the same datagram from the same source twice in a row changes
/// the table no further the second time, finds the record current where
/// there is one, and gives the same outcome both times.
pub proof fn law_repeat_changes_nothing(
    table: Map<i64, SessionRecord>,
    datagram: Seq<u8>,
    source: SourceAddr,
)
    ensures
        table_after(table_after(table, datagram, source), datagram, source) == table_after(
            table,
            datagram,
            source,
        ),
        outcome_on(table_after(table, datagram, source), datagram, source) == outcome_on(
            table,
            datagram,
            source,
        ),
        triaged(datagram, source) matches Ok((id, seen)) ==> table.contains_key(id)
            ==> standing_in(table_after(table, datagram, source), id, seen) == Standing::Current,
{
    match triaged(datagram, source) {
        Err(_) => {},
        Ok((id, seen)) => {
            if table.contains_key(id) {
                law_written_record_is_current(table, id, seen);
            }
        },
    }
}

/// The outcomes that a datagram can have against a shared table are those
/// it has against some table that nobody else touches, and no others.
pub proof fn law_shared_outcomes_are_owned_outcomes(
    datagram: Seq<u8>,
    source: SourceAddr,
    outcome: Outcome,
)
    ensures
        may_come_of(datagram, source, outcome) <==> exists|table: Map<i64, SessionRecord>|
            outcome == #[trigger] outcome_on(table, datagram, source),
{
    if may_come_of(datagram, source, outcome) {
        let none = Map::<i64, SessionRecord>::empty();
        match triaged(datagram, source) {
            Err(_) => {
                assert(outcome == outcome_on(none, datagram, source));
            },
            Ok((id, seen)) => {
                if outcome == concluded(true, seen) {
                    let record = SessionRecord {
                        session_id: id,
                        observed_port: seen.port,
                        observed_addr: seen.addr,
                        claimed_local_addr: seen.claimed_local_addr,
                    };
                    assert(outcome == outcome_on(none.insert(id, record), datagram, source));
                } else {
                    assert(outcome == outcome_on(none, datagram, source));
                }
            },
        }
    }
}

} // verus!
