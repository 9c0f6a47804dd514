use swapbytes::directmessage::{
    handle_direct_message_event, handle_request, DirectMessage, DirectMessageAction,
    DirectMessageEvent, DirectMessageResponse,
};

#[test]
fn inbound_whisper_is_displayed_and_acknowledged() {
    let request = DirectMessage { sender: "A".to_string(), message: "hi there".to_string() };
    let (display, ack) = handle_request(&request);
    assert_eq!(display, "A [Whisper]: hi there");
    assert_eq!(ack.0, "You [Whisper]: hi there");
}

#[test]
fn whisper_round_trip_shows_sender_perspective() {
    // B receives A's whisper, displays it, and acknowledges; A displays the
    // acknowledgment verbatim.
    let request = DirectMessage { sender: "A".to_string(), message: "hi there".to_string() };
    let at_b = handle_direct_message_event(DirectMessageEvent::RequestArrived { request });
    match at_b {
        DirectMessageAction::ReplyAndShow { display, response } => {
            assert_eq!(display, "A [Whisper]: hi there");
            let at_a =
                handle_direct_message_event(DirectMessageEvent::ResponseArrived { response });
            match at_a {
                DirectMessageAction::Show { text } => {
                    assert_eq!(text, "You [Whisper]: hi there");
                }
                _ => panic!("an acknowledgment is only shown"),
            }
        }
        _ => panic!("an inbound whisper must be shown and acknowledged"),
    }
}

#[test]
fn acknowledgment_text_is_shown_verbatim() {
    let response = DirectMessageResponse("anything at all".to_string());
    match handle_direct_message_event(DirectMessageEvent::ResponseArrived { response }) {
        DirectMessageAction::Show { text } => assert_eq!(text, "anything at all"),
        _ => panic!("an acknowledgment is only shown"),
    }
}
