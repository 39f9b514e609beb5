use parking_lot::RwLock;
use signaling_reflector::reflector::{
    apply_datagram, conclude, handle_datagram, triage, DiscardReason, Outcome, SourceAddr,
};
use signaling_reflector::session::{Observation, SessionRecord};
use signaling_reflector::table::SessionTable;
use std::collections::HashMap;

const EXAMPLE_REQUEST: [u8; 13] = [0x01, 0x2A, 0, 0, 0, 0, 0, 0, 0, 0x0A, 0, 0, 0x02];
const EXAMPLE_REPLY: [u8; 9] = [0x00, 0x00, 0x00, 0xCB, 0x00, 0x71, 0x05, 0x9C, 0x40];

fn example_source() -> SourceAddr {
    SourceAddr::V4 { addr: [203, 0, 113, 5], port: 40000 }
}

fn v6_source() -> SourceAddr {
    SourceAddr::V6 { addr6: [0x20, 0x01, 0x0d, 0xb8, 0, 0, 0, 0, 0, 0, 0, 0, 0, 0, 0, 1], port: 40000 }
}

fn blank(id: i64) -> SessionRecord {
    SessionRecord { session_id: id, observed_port: 0, observed_addr: [0; 4], claimed_local_addr: [0; 4] }
}

fn map_with(ids: &[i64]) -> HashMap<i64, SessionRecord> {
    let mut map = HashMap::new();
    for id in ids {
        map.insert(*id, blank(*id));
    }
    map
}

fn shared_with(ids: &[i64]) -> SessionTable {
    RwLock::new(map_with(ids))
}

fn example_record() -> SessionRecord {
    SessionRecord {
        session_id: 42,
        observed_port: 40000,
        observed_addr: [203, 0, 113, 5],
        claimed_local_addr: [10, 0, 0, 2],
    }
}

#[test]
fn triage_judges_the_format_before_the_family() {
    assert_eq!(triage(&[], &example_source()), Err(DiscardReason::Malformed));
    assert_eq!(triage(&[1, 2, 3], &v6_source()), Err(DiscardReason::Malformed));
    assert_eq!(triage(&EXAMPLE_REQUEST, &v6_source()), Err(DiscardReason::Ipv6Source));
    assert_eq!(
        triage(&EXAMPLE_REQUEST, &example_source()),
        Ok((42, Observation { addr: [203, 0, 113, 5], port: 40000, claimed_local_addr: [10, 0, 0, 2] }))
    );
}

#[test]
fn conclude_replies_only_for_a_known_session() {
    let seen = Observation { addr: [203, 0, 113, 5], port: 40000, claimed_local_addr: [10, 0, 0, 2] };
    assert_eq!(conclude(true, &seen), Outcome::Reply(EXAMPLE_REPLY));
    assert_eq!(conclude(false, &seen), Outcome::Discarded(DiscardReason::UnknownSession));
}

#[test]
fn example_request_updates_the_record_and_is_answered() {
    let table = shared_with(&[42]);
    let outcome = handle_datagram(&table, &EXAMPLE_REQUEST, &example_source());
    assert_eq!(outcome, Outcome::Reply(EXAMPLE_REPLY));
    let map = table.read();
    assert_eq!(map.len(), 1);
    assert_eq!(map[&42], example_record());
}

#[test]
fn malformed_datagrams_get_no_reply_and_change_nothing() {
    let table = shared_with(&[42]);
    let mut wrong_tag = EXAMPLE_REQUEST;
    wrong_tag[0] = 2;
    let mut too_long = EXAMPLE_REQUEST.to_vec();
    too_long.push(0);
    let cases: Vec<Vec<u8>> = vec![vec![], vec![1], EXAMPLE_REQUEST[..12].to_vec(), too_long, wrong_tag.to_vec()];
    for datagram in &cases {
        assert_eq!(
            handle_datagram(&table, datagram, &example_source()),
            Outcome::Discarded(DiscardReason::Malformed)
        );
        assert_eq!(
            handle_datagram(&table, datagram, &v6_source()),
            Outcome::Discarded(DiscardReason::Malformed)
        );
    }
    assert_eq!(*table.read(), map_with(&[42]));
}

#[test]
fn unknown_sessions_get_no_reply_and_change_nothing() {
    let table = shared_with(&[41, 43]);
    assert_eq!(
        handle_datagram(&table, &EXAMPLE_REQUEST, &example_source()),
        Outcome::Discarded(DiscardReason::UnknownSession)
    );
    assert_eq!(*table.read(), map_with(&[41, 43]));
    let empty = shared_with(&[]);
    assert_eq!(
        handle_datagram(&empty, &EXAMPLE_REQUEST, &example_source()),
        Outcome::Discarded(DiscardReason::UnknownSession)
    );
    assert!(empty.read().is_empty());
}

#[test]
fn ipv6_sources_get_no_reply_and_change_nothing() {
    let table = shared_with(&[42]);
    assert_eq!(
        handle_datagram(&table, &EXAMPLE_REQUEST, &v6_source()),
        Outcome::Discarded(DiscardReason::Ipv6Source)
    );
    assert_eq!(*table.read(), map_with(&[42]));
    let empty = shared_with(&[]);
    assert_eq!(
        handle_datagram(&empty, &EXAMPLE_REQUEST, &v6_source()),
        Outcome::Discarded(DiscardReason::Ipv6Source)
    );
}

#[test]
fn other_sessions_are_left_alone() {
    let table = shared_with(&[7, 42, -42]);
    assert_eq!(handle_datagram(&table, &EXAMPLE_REQUEST, &example_source()), Outcome::Reply(EXAMPLE_REPLY));
    let map = table.read();
    assert_eq!(map.len(), 3);
    assert_eq!(map[&7], blank(7));
    assert_eq!(map[&-42], blank(-42));
    assert_eq!(map[&42], example_record());
}

#[test]
fn same_request_twice_gives_the_same_reply_and_one_update() {
    let table = shared_with(&[42]);
    let first = handle_datagram(&table, &EXAMPLE_REQUEST, &example_source());
    let after_first = table.read().clone();
    let second = handle_datagram(&table, &EXAMPLE_REQUEST, &example_source());
    assert_eq!(first, Outcome::Reply(EXAMPLE_REPLY));
    assert_eq!(second, first);
    assert_eq!(*table.read(), after_first);
    assert_eq!(after_first[&42], example_record());
}

#[test]
fn a_changed_source_rewrites_all_three_fields() {
    let table = shared_with(&[42]);
    handle_datagram(&table, &EXAMPLE_REQUEST, &example_source());
    let mut moved = EXAMPLE_REQUEST;
    moved[9..].copy_from_slice(&[172, 16, 0, 9]);
    let outcome = handle_datagram(&table, &moved, &SourceAddr::V4 { addr: [198, 51, 100, 1], port: 513 });
    assert_eq!(outcome, Outcome::Reply([0, 0, 0, 198, 51, 100, 1, 2, 1]));
    assert_eq!(
        table.read()[&42],
        SessionRecord {
            session_id: 42,
            observed_port: 513,
            observed_addr: [198, 51, 100, 1],
            claimed_local_addr: [172, 16, 0, 9],
        }
    );
}

#[test]
fn claimed_address_is_taken_as_sent() {
    let table = shared_with(&[42]);
    let mut odd = EXAMPLE_REQUEST;
    odd[9..].copy_from_slice(&[255, 255, 255, 255]);
    assert_eq!(handle_datagram(&table, &odd, &example_source()), Outcome::Reply(EXAMPLE_REPLY));
    assert_eq!(table.read()[&42].claimed_local_addr, [255, 255, 255, 255]);
}

#[test]
fn no_lock_is_held_after_handling() {
    let table = shared_with(&[42]);
    handle_datagram(&table, &EXAMPLE_REQUEST, &example_source());
    assert!(!table.is_locked());
    handle_datagram(&table, &EXAMPLE_REQUEST, &example_source());
    assert!(!table.is_locked());
    handle_datagram(&table, &[0u8; 3], &example_source());
    assert!(!table.is_locked());
    assert!(table.try_write().is_some());
}

#[test]
fn negative_session_ids_are_looked_up_as_they_are() {
    let table = shared_with(&[-1]);
    let mut datagram = vec![1u8];
    datagram.extend_from_slice(&[0xFF; 8]);
    datagram.extend_from_slice(&[10, 1, 1, 1]);
    let outcome = handle_datagram(&table, &datagram, &SourceAddr::V4 { addr: [1, 1, 1, 1], port: 1 });
    assert_eq!(outcome, Outcome::Reply([0, 0, 0, 1, 1, 1, 1, 0, 1]));
    assert_eq!(table.read()[&-1].claimed_local_addr, [10, 1, 1, 1]);
}

#[test]
fn owned_table_is_handled_like_the_shared_one() {
    let sources = [example_source(), v6_source(), SourceAddr::V4 { addr: [9, 9, 9, 9], port: 9 }];
    let datagrams: Vec<Vec<u8>> = vec![EXAMPLE_REQUEST.to_vec(), vec![], vec![1; 13], vec![2; 13], vec![1; 14]];
    for ids in [&[][..], &[42][..], &[1, 42, 0x0101_0101_0101_0101][..]] {
        for source in &sources {
            for datagram in &datagrams {
                let shared = shared_with(ids);
                let mut owned = map_with(ids);
                let from_shared = handle_datagram(&shared, datagram, source);
                let from_owned = apply_datagram(&mut owned, datagram, source);
                assert_eq!(from_shared, from_owned);
                assert_eq!(*shared.read(), owned);
            }
        }
    }
}

#[test]
fn owned_table_example() {
    let mut table = map_with(&[42]);
    assert_eq!(apply_datagram(&mut table, &EXAMPLE_REQUEST, &example_source()), Outcome::Reply(EXAMPLE_REPLY));
    assert_eq!(table[&42], example_record());
    let once = table.clone();
    assert_eq!(apply_datagram(&mut table, &EXAMPLE_REQUEST, &example_source()), Outcome::Reply(EXAMPLE_REPLY));
    assert_eq!(table, once);
    assert_eq!(
        apply_datagram(&mut table, &EXAMPLE_REQUEST[..5], &example_source()),
        Outcome::Discarded(DiscardReason::Malformed)
    );
    assert_eq!(
        apply_datagram(&mut table, &EXAMPLE_REQUEST, &v6_source()),
        Outcome::Discarded(DiscardReason::Ipv6Source)
    );
    assert_eq!(table, once);
    let mut empty = map_with(&[]);
    assert_eq!(
        apply_datagram(&mut empty, &EXAMPLE_REQUEST, &example_source()),
        Outcome::Discarded(DiscardReason::UnknownSession)
    );
    assert!(empty.is_empty());
}
