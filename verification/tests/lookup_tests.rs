use swapbytes::lookups::{process_outbound_query, LookupTable, QueryOutcome};
use swapbytes::session::handle_gossipsub_message;

#[test]
fn found_record_resolves_to_nickname() {
    let mut table = LookupTable::new();
    table.register(1, "raw-id".to_string(), "hello".to_string());
    let shown = process_outbound_query(
        &mut table,
        1,
        QueryOutcome::RecordFound { value: b"alice".to_vec() },
    );
    assert_eq!(shown, Some("alice: hello".to_string()));
    assert_eq!(table.len(), 0);
}

#[test]
fn pending_lookup_is_resolved_at_most_once() {
    let mut table = LookupTable::new();
    table.register(7, "raw-id".to_string(), "hello".to_string());
    assert_eq!(table.len(), 1);
    let first = process_outbound_query(
        &mut table,
        7,
        QueryOutcome::RecordFound { value: b"alice".to_vec() },
    );
    assert!(first.is_some());
    let second = process_outbound_query(
        &mut table,
        7,
        QueryOutcome::RecordFound { value: b"alice".to_vec() },
    );
    assert_eq!(second, None);
    assert_eq!(table.len(), 0);
}

#[test]
fn failed_lookup_does_not_leak_the_entry() {
    let mut table = LookupTable::new();
    table.register(3, "raw-id".to_string(), "hello".to_string());
    let shown = process_outbound_query(
        &mut table,
        3,
        QueryOutcome::GetFailed { error: "Timeout".to_string() },
    );
    assert_eq!(shown, Some("Failed to GET record. Err: Timeout".to_string()));
    assert_eq!(table.len(), 0);
    let again = process_outbound_query(&mut table, 3, QueryOutcome::RecordNotFound);
    assert_eq!(again, None);
}

#[test]
fn unresolved_nickname_falls_back_to_raw_identity() {
    // A broadcasts before its nickname record has propagated: the lookup
    // finds nothing and the message is shown under the raw identity.
    let a_id = libp2p_identity::PeerId::random().to_string();
    let lookup = handle_gossipsub_message(&a_id, b"hello".to_vec()).unwrap();
    assert_eq!(lookup.key, a_id.as_bytes().to_vec());
    let mut table = LookupTable::new();
    table.register(11, lookup.sender, lookup.text);
    let shown = process_outbound_query(&mut table, 11, QueryOutcome::RecordNotFound);
    assert_eq!(shown, Some(format!("{}: hello", a_id)));
    assert_eq!(table.len(), 0);
}

#[test]
fn non_utf8_nickname_falls_back_to_raw_identity() {
    let mut table = LookupTable::new();
    table.register(5, "raw-id".to_string(), "hi".to_string());
    let shown = process_outbound_query(
        &mut table,
        5,
        QueryOutcome::RecordFound { value: vec![0xff, 0xfe] },
    );
    assert_eq!(shown, Some("raw-id: hi".to_string()));
}

#[test]
fn non_utf8_broadcast_payload_is_dropped() {
    assert!(handle_gossipsub_message("peer", vec![0xff, 0x00, 0x80]).is_none());
}

#[test]
fn put_outcomes_do_not_touch_the_table() {
    let mut table = LookupTable::new();
    table.register(9, "raw-id".to_string(), "hi".to_string());
    assert_eq!(process_outbound_query(&mut table, 9, QueryOutcome::PutConfirmed), None);
    assert_eq!(
        process_outbound_query(&mut table, 9, QueryOutcome::PutFailed { error: "Quorum".to_string() }),
        Some("Failed to PUT record. Err: Quorum".to_string())
    );
    assert_eq!(process_outbound_query(&mut table, 9, QueryOutcome::OtherProgress), None);
    assert_eq!(table.len(), 1);
}
