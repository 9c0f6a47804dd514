//! The direct-message ("whisper") exchange: request and response schemas
//! and the responder's display/acknowledgment logic.

use vstd::prelude::*;
use vstd::string::StringExecFns;

verus! {

/// A private message carried by the point-to-point exchange; `sender` is
/// the sending peer's identity in display form.
pub struct DirectMessage {
    pub message: String,
    pub sender: String,
}

/// The acknowledgment echoed back to the whisper's sender: the text the
/// sender's own terminal displays once the exchange round-trips.
pub struct DirectMessageResponse(pub String);

/// The line the responder shows its local user for an inbound whisper.
pub fn whisper_display(request: &DirectMessage) -> (r: String)
    ensures
        r@ == request.sender@ + " [Whisper]: "@ + request.message@,
{
    let mut r = request.sender.clone();
    r.append(" [Whisper]: ");
    r.append(request.message.as_str());
    r
}

/// Handles an inbound whisper: the line to display locally, and the
/// acknowledgment to send back over the same exchange so that the original
/// sender's terminal shows the message from its own perspective.
pub fn handle_request(request: &DirectMessage) -> (r: (String, DirectMessageResponse))
    ensures
        r.0@ == request.sender@ + " [Whisper]: "@ + request.message@,
        r.1.0@ == "You [Whisper]: "@ + request.message@,
{
    let display = whisper_display(request);
    let mut ack = "You [Whisper]: ".to_owned();
    ack.append(request.message.as_str());
    (display, DirectMessageResponse(ack))
}

/// An event on the direct-message exchange, as delivered by the transport.
pub enum DirectMessageEvent {
    /// A peer whispered to this node; it must display and acknowledge.
    RequestArrived { request: DirectMessage },
    /// A peer acknowledged an earlier whisper of this node.
    ResponseArrived { response: DirectMessageResponse },
}

/// What the node must do in reaction to a [`DirectMessageEvent`]; the
/// network send itself is carried out by the caller.
pub enum DirectMessageAction {
    /// Show `display` locally and send `response` back on the exchange.
    ReplyAndShow { display: String, response: DirectMessageResponse },
    /// Show the acknowledgment text verbatim.
    Show { text: String },
}

/// Dispatches one direct-message event to the action it requires.
pub fn handle_direct_message_event(event: DirectMessageEvent) -> (r: DirectMessageAction)
    ensures
        match event {
            DirectMessageEvent::RequestArrived { request } => r matches
                DirectMessageAction::ReplyAndShow { display, response }
                && display@ == request.sender@ + " [Whisper]: "@ + request.message@
                && response.0@ == "You [Whisper]: "@ + request.message@,
            DirectMessageEvent::ResponseArrived { response } => r matches
                DirectMessageAction::Show { text } && text@ == response.0@,
        },
{
    match event {
        DirectMessageEvent::RequestArrived { request } => {
            let (display, response) = handle_request(&request);
            DirectMessageAction::ReplyAndShow { display, response }
        },
        DirectMessageEvent::ResponseArrived { response } => {
            DirectMessageAction::Show { text: response.0 }
        },
    }
}

} // verus!
