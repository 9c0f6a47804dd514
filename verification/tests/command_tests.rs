use swapbytes::commands::{process_command, CommandAction};

fn valid_peer() -> String {
    libp2p_identity::PeerId::random().to_string()
}

#[test]
fn whisper_with_bad_peer_is_rejected_without_action() {
    let r = process_command("/whisper notapeer hello", "me");
    match r {
        CommandAction::ShowText { text } => {
            assert_eq!(text, "Peer 'notapeer' does not exist.");
        }
        _ => panic!("an unparsable peer id must not produce a network request"),
    }
}

#[test]
fn bytestream_with_bad_peer_is_rejected_without_action() {
    let r = process_command("/bytestream !!! file.txt", "me");
    match r {
        CommandAction::ShowText { text } => {
            assert_eq!(text, "Peer '!!!' does not exist.");
        }
        _ => panic!("an unparsable peer id must not produce a network request"),
    }
}

#[test]
fn bytestream_needs_exactly_three_tokens() {
    let r = process_command("/bytestream onlypeer", "me");
    match r {
        CommandAction::ShowText { text } => {
            assert_eq!(text, "Usage: /bytestream <peer_id> <filename>");
        }
        _ => panic!("bad arity must only show usage"),
    }
    let peer = valid_peer();
    let line = format!("/bytestream {} a.txt extra", peer);
    match process_command(&line, "me") {
        CommandAction::ShowText { text } => {
            assert_eq!(text, "Usage: /bytestream <peer_id> <filename>");
        }
        _ => panic!("bad arity must only show usage"),
    }
}

#[test]
fn whisper_needs_at_least_three_tokens() {
    match process_command("/whisper", "me") {
        CommandAction::ShowText { text } => {
            assert_eq!(text, "Usage: /whisper <peer_id> <message>");
        }
        _ => panic!("bad arity must only show usage"),
    }
}

#[test]
fn bytestream_with_valid_peer_requests_file() {
    let peer = valid_peer();
    let line = format!("/bytestream {} notes.txt", peer);
    match process_command(&line, "me") {
        CommandAction::FileRequestTo { peer: target, request, note } => {
            assert_eq!(target.text(), peer);
            assert_eq!(request.0, "notes.txt");
            assert_eq!(note, format!("Sent bytestream for notes.txt to peer: {}", peer));
        }
        _ => panic!("a valid request must be issued"),
    }
}

#[test]
fn whisper_with_valid_peer_joins_message_words() {
    let peer = valid_peer();
    let line = format!("/whisper {} one   two three", peer);
    match process_command(&line, "my-display") {
        CommandAction::Whisper { peer: target, message } => {
            assert_eq!(target.text(), peer);
            assert_eq!(message.sender, "my-display");
            assert_eq!(message.message, "one two three");
        }
        _ => panic!("a valid whisper must be issued"),
    }
}

#[test]
fn whisper_quoted_message_is_one_word() {
    let peer = valid_peer();
    let line = format!("/whisper {} \"hi there\"", peer);
    match process_command(&line, "A") {
        CommandAction::Whisper { message, .. } => {
            assert_eq!(message.message, "hi there");
        }
        _ => panic!("a valid whisper must be issued"),
    }
}

#[test]
fn id_command_shows_own_identity() {
    match process_command("/id", "my-display") {
        CommandAction::ShowText { text } => {
            assert_eq!(text, "Your peer id: my-display");
        }
        _ => panic!("/id only shows text"),
    }
}

#[test]
fn unknown_command_is_reported() {
    match process_command("/frobnicate x", "me") {
        CommandAction::ShowText { text } => {
            assert_eq!(text, "Invalid command: /frobnicate");
        }
        _ => panic!("unknown commands only show text"),
    }
}
