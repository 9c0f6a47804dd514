//! The session orchestrator's per-event logic: local input lines, peer
//! discovery and expiry, and inbound broadcast messages. The cooperative
//! loop that pulls events and performs the network and file I/O lives
//! outside the library and hands each event in as a plain value.

use crate::commands::CommandAction;
use crate::commands::process_command;
use crate::commands::spec_command_action;
use crate::lookups::LookupTable;
use crate::strings::bytes_to_string;
use crate::tokenize::spec_tokenize;
use vstd::prelude::*;
use vstd::string::StrSliceExecFns;
use vstd::string::StringExecFns;
use vstd::utf8::decode_utf8;
use vstd::utf8::encode_utf8;
use vstd::utf8::valid_utf8;

verus! {

/// A nickname record for the distributed directory: the local identity's
/// display text as key, the chosen nickname as value, both in UTF-8.
pub struct NicknameRecord {
    pub key: Vec<u8>,
    pub value: Vec<u8>,
}

/// What a newly discovered peer requires: a notice for the local user, the
/// peer to register with the broadcast channel and the directory's routing
/// table, and the node's own nickname record to publish so the new peer
/// can resolve it.
pub struct PeerRegistration {
    pub notice: String,
    pub peer: String,
    pub record: NicknameRecord,
}

/// The directory lookup an inbound broadcast message requires: the record
/// key for the sender, and the decoded text waiting on the lookup.
pub struct BroadcastLookup {
    pub key: Vec<u8>,
    pub sender: String,
    pub text: String,
}

/// What one local input line requires of the caller.
pub enum LineAction {
    /// Publish `payload` on the broadcast channel.
    Broadcast { payload: Vec<u8> },
    /// Carry out the interpreted command.
    Command { action: CommandAction },
}

/// The session state owned by the orchestrator: the local identity in
/// display form, the chosen nickname, and the in-flight lookup table.
pub struct Session {
    pub self_display: String,
    pub nickname: String,
    pub pending: LookupTable,
}

impl Session {
    pub fn new(self_display: String, nickname: String) -> (r: Session)
        ensures
            r.self_display == self_display,
            r.nickname == nickname,
            r.pending@ == Map::<u64, (Seq<char>, Seq<char>)>::empty(),
    {
        Session { self_display, nickname, pending: LookupTable::new() }
    }

    /// Routes one local input line: a line starting with the command prefix
    /// goes to the command interpreter; anything else is published verbatim
    /// as UTF-8 on the broadcast channel.
    pub fn handle_line(&self, line: &str) -> (r: LineAction)
        ensures
            line@.len() > 0 && line@[0] == '/' ==> (r matches LineAction::Command { action }
                && spec_command_action(spec_tokenize(line@), self.self_display@, action)),
            !(line@.len() > 0 && line@[0] == '/') ==> (r matches LineAction::Broadcast { payload }
                && payload@ == encode_utf8(line@)),
    {
        let n = line.unicode_len();
        if n > 0 && line.get_char(0) == '/' {
            LineAction::Command { action: process_command(line, self.self_display.as_str()) }
        } else {
            LineAction::Broadcast { payload: handle_publish_message(line) }
        }
    }

    /// Prepares the reaction to a batch of newly discovered peers: one
    /// registration per peer, each publishing the node's own nickname
    /// record keyed by its own identity.
    pub fn handle_mdns_discovered(&self, peers: &Vec<String>) -> (r: Vec<PeerRegistration>)
        ensures
            r@.len() == peers@.len(),
            forall|i: int|
                0 <= i < peers@.len() ==> {
                    &&& (#[trigger] r@[i]).peer@ == peers@[i]@
                    &&& r@[i].notice@ == "New peer discovered: "@ + peers@[i]@
                    &&& r@[i].record.key@ == encode_utf8(self.self_display@)
                    &&& r@[i].record.value@ == encode_utf8(self.nickname@)
                },
    {
        let mut r: Vec<PeerRegistration> = Vec::new();
        let mut i: usize = 0;
        while i < peers.len()
            invariant
                i <= peers@.len(),
                r@.len() == i,
                forall|k: int|
                    0 <= k < i ==> {
                        &&& (#[trigger] r@[k]).peer@ == peers@[k]@
                        &&& r@[k].notice@ == "New peer discovered: "@ + peers@[k]@
                        &&& r@[k].record.key@ == encode_utf8(self.self_display@)
                        &&& r@[k].record.value@ == encode_utf8(self.nickname@)
                    },
            decreases peers@.len() - i,
        {
            let mut notice = "New peer discovered: ".to_owned();
            notice.append(peers[i].as_str());
            let record = NicknameRecord {
                key: self.self_display.as_str().as_bytes_vec(),
                value: self.nickname.as_str().as_bytes_vec(),
            };
            r.push(PeerRegistration { notice, peer: peers[i].clone(), record });
            i += 1;
        }
        r
    }
}

/// The notices for a batch of expired peers; the caller deregisters each
/// peer from the broadcast channel and the directory's routing table.
pub fn handle_mdns_expired(peers: &Vec<String>) -> (r: Vec<String>)
    ensures
        r@.len() == peers@.len(),
        forall|i: int|
            0 <= i < peers@.len() ==> (#[trigger] r@[i])@ == "mDNS peer has expired: "@
                + peers@[i]@,
{
    let mut r: Vec<String> = Vec::new();
    let mut i: usize = 0;
    while i < peers.len()
        invariant
            i <= peers@.len(),
            r@.len() == i,
            forall|k: int|
                0 <= k < i ==> (#[trigger] r@[k])@ == "mDNS peer has expired: "@ + peers@[k]@,
        decreases peers@.len() - i,
    {
        let mut notice = "mDNS peer has expired: ".to_owned();
        notice.append(peers[i].as_str());
        r.push(notice);
        i += 1;
    }
    r
}

/// The broadcast payload for one local chat line: its UTF-8 bytes.
pub fn handle_publish_message(line: &str) -> (r: Vec<u8>)
    ensures
        r@ == encode_utf8(line@),
{
    line.as_bytes_vec()
}

/// Prepares the directory lookup for an inbound broadcast message: a
/// payload that is not UTF-8 is silently dropped; otherwise the sender's
/// record key and the decoded text are handed back, to be registered in
/// the lookup table under the id the directory returns.
pub fn handle_gossipsub_message(sender: &str, data: Vec<u8>) -> (r: Option<BroadcastLookup>)
    ensures
        r is Some <==> valid_utf8(data@),
        r matches Some(b) ==> b.key@ == encode_utf8(sender@) && b.sender@ == sender@ && b.text@
            == decode_utf8(data@),
{
    match bytes_to_string(data) {
        Some(text) => Some(
            BroadcastLookup { key: sender.as_bytes_vec(), sender: sender.to_owned(), text },
        ),
        None => None,
    }
}

} // verus!
