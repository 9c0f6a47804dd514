use swapbytes::commands::CommandAction;
use swapbytes::session::{
    handle_gossipsub_message, handle_mdns_expired, handle_publish_message, LineAction, Session,
};

fn session() -> Session {
    Session::new("self-id".to_string(), "alice".to_string())
}

#[test]
fn plain_line_is_broadcast_verbatim() {
    match session().handle_line("hello everyone") {
        LineAction::Broadcast { payload } => {
            assert_eq!(payload, b"hello everyone".to_vec());
        }
        _ => panic!("a plain line is published, not interpreted"),
    }
}

#[test]
fn command_line_goes_to_the_interpreter() {
    match session().handle_line("/id") {
        LineAction::Command { action } => match action {
            CommandAction::ShowText { text } => assert_eq!(text, "Your peer id: self-id"),
            _ => panic!("/id only shows text"),
        },
        _ => panic!("a command line is interpreted, not published"),
    }
}

#[test]
fn empty_line_is_broadcast() {
    match session().handle_line("") {
        LineAction::Broadcast { payload } => assert!(payload.is_empty()),
        _ => panic!("an empty line is published"),
    }
}

#[test]
fn publish_payload_is_utf8_of_line() {
    assert_eq!(handle_publish_message("héllo"), "héllo".as_bytes().to_vec());
}

#[test]
fn discovered_peer_brings_registration_and_nickname_record() {
    let s = session();
    let peers = vec!["peer-one".to_string(), "peer-two".to_string()];
    let regs = s.handle_mdns_discovered(&peers);
    assert_eq!(regs.len(), 2);
    assert_eq!(regs[0].notice, "New peer discovered: peer-one");
    assert_eq!(regs[0].peer, "peer-one");
    assert_eq!(regs[0].record.key, b"self-id".to_vec());
    assert_eq!(regs[0].record.value, b"alice".to_vec());
    assert_eq!(regs[1].peer, "peer-two");
    assert_eq!(regs[1].record.key, b"self-id".to_vec());
}

#[test]
fn expired_peer_brings_a_notice() {
    let notices = handle_mdns_expired(&vec!["gone-peer".to_string()]);
    assert_eq!(notices, vec!["mDNS peer has expired: gone-peer".to_string()]);
}

#[test]
fn published_line_round_trips_to_the_receiver() {
    let payload = handle_publish_message("salut à tous");
    let lookup = handle_gossipsub_message("sender-id", payload).unwrap();
    assert_eq!(lookup.text, "salut à tous");
}

#[test]
fn broadcast_message_round_trips_through_utf8() {
    let lookup = handle_gossipsub_message("sender-id", "héllo".as_bytes().to_vec()).unwrap();
    assert_eq!(lookup.sender, "sender-id");
    assert_eq!(lookup.text, "héllo");
    assert_eq!(lookup.key, b"sender-id".to_vec());
}
