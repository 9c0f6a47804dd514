//! The file-transfer exchange: request and response schemas, send-side path
//! resolution, and the receive-side filename sanitization that keeps an
//! untrusted peer's filename from escaping the receive directory.

use crate::strings::push_char;
use vstd::prelude::*;
use vstd::string::StrSliceExecFns;
use vstd::string::StringExecFns;

verus! {

/// A request for the full contents of the named file, as supplied by the
/// requesting peer; no structural validation happens at request time.
pub struct FileRequest(pub String);

/// The response to a [`FileRequest`]: the echoed filename and the file's
/// bytes. `data` is empty both when the file is absent and when it is
/// genuinely empty; the requester cannot tell the two apart.
pub struct FileResponse {
    pub filename: String,
    pub data: Vec<u8>,
}

/// A filename with every path separator (`/` and `\`) replaced by `_`.
pub open spec fn spec_sanitized(s: Seq<char>) -> Seq<char> {
    s.map_values(|c: char| if c == '/' || c == '\\' { '_' } else { c })
}

/// Law: sanitization never leaves a path separator in a filename, so a
/// persisted destination name cannot traverse out of the receive directory.
pub proof fn lemma_sanitized_no_separators(name: Seq<char>)
    ensures
        spec_sanitized(name).len() == name.len(),
        forall|i: int|
            0 <= i < name.len() ==> #[trigger] spec_sanitized(name)[i] != '/' && spec_sanitized(
                name,
            )[i] != '\\',
{
}

/// Replaces every `/` and `\` in a remote-supplied filename with `_`.
pub fn sanitize_filename(name: &str) -> (r: String)
    ensures
        r@ == spec_sanitized(name@),
{
    let n = name.unicode_len();
    let mut r = String::new();
    let mut i: usize = 0;
    while i < n
        invariant
            n == name@.len(),
            i <= n,
            r@ == spec_sanitized(name@.take(i as int)),
        decreases n - i,
    {
        let c = name.get_char(i);
        if c == '/' || c == '\\' {
            push_char(&mut r, '_');
        } else {
            push_char(&mut r, c);
        }
        proof {
            assert(spec_sanitized(name@.take(i + 1)) =~= spec_sanitized(name@.take(i as int)).push(
                if name@[i as int] == '/' || name@[i as int] == '\\' {
                    '_'
                } else {
                    name@[i as int]
                },
            ));
        }
        i += 1;
    }
    proof {
        assert(name@.take(n as int) =~= name@);
    }
    r
}

/// The destination under the fixed receive directory for a file arriving
/// with the given remote-supplied name.
pub fn receive_destination(filename: &str) -> (r: String)
    ensures
        r@ == "files/bytestream/"@ + spec_sanitized(filename@),
{
    let mut r = "files/bytestream/".to_owned();
    let sanitized = sanitize_filename(filename);
    r.append(sanitized.as_str());
    r
}

/// The path under the fixed send directory that a received [`FileRequest`]
/// resolves to.
pub fn send_path(request: &FileRequest) -> (r: String)
    ensures
        r@ == "files/bytebeam/"@ + request.0@,
{
    let mut r = "files/bytebeam/".to_owned();
    r.append(request.0.as_str());
    r
}

/// An event on the file-transfer exchange, as delivered by the transport.
pub enum FileTransferEvent {
    /// A peer asked for a file; the node must read it and respond.
    RequestArrived { request: FileRequest },
    /// A peer answered an earlier request; the node must persist the bytes.
    ResponseArrived { response: FileResponse },
    /// An outbound request could not be delivered.
    OutboundFailed { peer: String, error: String },
    /// An inbound exchange failed before a response could be sent.
    InboundFailed { peer: String, error: String },
    /// The response to an inbound request was delivered.
    ResponseSent { peer: String },
}

/// What the node must do in reaction to a [`FileTransferEvent`]; the file
/// and network I/O itself is carried out by the caller.
pub enum FileTransferAction {
    /// Show `notice`, read the file at `path`, and answer with a response
    /// built by [`file_read_completed`] from `filename` and the bytes read.
    ReadAndRespond { notice: String, path: String, filename: String },
    /// Write `data` to `destination` (under the fixed receive directory,
    /// with a sanitized filename), overwriting any existing file.
    Persist { destination: String, data: Vec<u8> },
    /// Show a report line; nothing else to do.
    Report { text: String },
}

/// Dispatches one file-transfer event to the action it requires.
pub fn handle_send_file_event(event: FileTransferEvent) -> (r: FileTransferAction)
    ensures
        match event {
            FileTransferEvent::RequestArrived { request } => r matches
                FileTransferAction::ReadAndRespond { notice, path, filename }
                && notice@ == "Received request for file: "@ + request.0@
                && path@ == "files/bytebeam/"@ + request.0@
                && filename@ == request.0@,
            FileTransferEvent::ResponseArrived { response } => r matches
                FileTransferAction::Persist { destination, data }
                && destination@ == "files/bytestream/"@ + spec_sanitized(response.filename@)
                && data@ == response.data@,
            FileTransferEvent::OutboundFailed { peer, error } => r matches
                FileTransferAction::Report { text }
                && text@ == "Failed to ByteBeam to peer: "@ + peer@ + ": "@ + error@,
            FileTransferEvent::InboundFailed { peer, error } => r matches
                FileTransferAction::Report { text }
                && text@ == "ByteBeam was unsuccessful to peer: "@ + peer@ + ". Err: "@ + error@,
            FileTransferEvent::ResponseSent { peer } => r matches FileTransferAction::Report { text }
                && text@ == "ByteBeam was successful to peer: "@ + peer@,
        },
{
    match event {
        FileTransferEvent::RequestArrived { request } => {
            let mut notice = "Received request for file: ".to_owned();
            notice.append(request.0.as_str());
            let path = send_path(&request);
            FileTransferAction::ReadAndRespond { notice, path, filename: request.0 }
        },
        FileTransferEvent::ResponseArrived { response } => {
            let destination = receive_destination(response.filename.as_str());
            FileTransferAction::Persist { destination, data: response.data }
        },
        FileTransferEvent::OutboundFailed { peer, error } => {
            let mut text = "Failed to ByteBeam to peer: ".to_owned();
            text.append(peer.as_str());
            text.append(": ");
            text.append(error.as_str());
            FileTransferAction::Report { text }
        },
        FileTransferEvent::InboundFailed { peer, error } => {
            let mut text = "ByteBeam was unsuccessful to peer: ".to_owned();
            text.append(peer.as_str());
            text.append(". Err: ");
            text.append(error.as_str());
            FileTransferAction::Report { text }
        },
        FileTransferEvent::ResponseSent { peer } => {
            let mut text = "ByteBeam was successful to peer: ".to_owned();
            text.append(peer.as_str());
            FileTransferAction::Report { text }
        },
    }
}

/// Builds the response to a file request once the read attempt finished:
/// the bytes read on success, empty bytes when the file was absent or
/// unreadable. The filename is echoed unchanged.
pub fn file_read_completed(filename: String, contents: Option<Vec<u8>>) -> (r: FileResponse)
    ensures
        r.filename@ == filename@,
        match contents {
            Some(bytes) => r.data@ == bytes@,
            None => r.data@ == Seq::<u8>::empty(),
        },
{
    match contents {
        Some(bytes) => FileResponse { filename, data: bytes },
        None => {
            let data: Vec<u8> = Vec::new();
            proof {
                assert(data@ =~= Seq::<u8>::empty());
            }
            FileResponse { filename, data }
        },
    }
}

} // verus!
