//! The command interpreter: lines beginning with `/` parsed into structured
//! actions — send a whisper, request a file, show the local identity — with
//! bad usage and unparsable peer identities rejected before any network
//! request exists.

use crate::directmessage::DirectMessage;
use crate::peer::PeerIdent;
use crate::peer::valid_peer_text;
use crate::sendfile::FileRequest;
use crate::strings::join_from;
use crate::strings::spec_joined;
use crate::strings::str_eq;
use crate::tokenize::lemma_tokenize_nonempty;
use crate::tokenize::spec_tokenize;
use crate::tokenize::tokenize;
use crate::tokenize::views_of;
use vstd::prelude::*;
use vstd::string::StringExecFns;

verus! {

/// The structured outcome of interpreting one command line. Only the two
/// carrying variants lead to a network request, and both carry a
/// well-formed peer identity.
pub enum CommandAction {
    /// Show a line to the local user; nothing is sent.
    ShowText { text: String },
    /// Send `message` to `peer` over the direct-message exchange.
    Whisper { peer: PeerIdent, message: DirectMessage },
    /// Send `request` to `peer` over the file-transfer exchange, then show
    /// `note`.
    FileRequestTo { peer: PeerIdent, request: FileRequest, note: String },
}

/// The rejection shown for a peer-id token that does not parse.
pub open spec fn spec_peer_error(token: Seq<char>) -> Seq<char> {
    "Peer '"@ + token + "' does not exist."@
}

/// How the interpreter maps a tokenized line (and the local identity's
/// display text) to its action.
pub open spec fn spec_command_action(
    toks: Seq<Seq<char>>,
    self_id: Seq<char>,
    r: CommandAction,
) -> bool
    recommends
        toks.len() > 0,
{
    let cmd = toks[0];
    &&& (cmd == "/bytestream"@ ==> if toks.len() != 3 {
        r matches CommandAction::ShowText { text } && text@
            == "Usage: /bytestream <peer_id> <filename>"@
    } else if !valid_peer_text(toks[1]) {
        r matches CommandAction::ShowText { text } && text@ == spec_peer_error(toks[1])
    } else {
        r matches CommandAction::FileRequestTo { peer, request, note } && peer@ == toks[1]
            && request.0@ == toks[2] && note@ == "Sent bytestream for "@ + toks[2] + " to peer: "@
            + toks[1]
    })
    &&& (cmd == "/whisper"@ ==> if toks.len() < 3 {
        r matches CommandAction::ShowText { text } && text@ == "Usage: /whisper <peer_id> <message>"@
    } else if !valid_peer_text(toks[1]) {
        r matches CommandAction::ShowText { text } && text@ == spec_peer_error(toks[1])
    } else {
        r matches CommandAction::Whisper { peer, message } && peer@ == toks[1] && message.sender@
            == self_id && message.message@ == spec_joined(toks, 2)
    })
    &&& (cmd == "/id"@ ==> (r matches CommandAction::ShowText { text } && text@
        == "Your peer id: "@ + self_id))
    &&& (cmd != "/bytestream"@ && cmd != "/whisper"@ && cmd != "/id"@ ==> (r matches
        CommandAction::ShowText { text } && text@ == "Invalid command: "@ + cmd))
    &&& (r matches CommandAction::Whisper { peer, .. } ==> valid_peer_text(peer@))
    &&& (r matches CommandAction::FileRequestTo { peer, .. } ==> valid_peer_text(peer@))
}

fn peer_error(token: &str) -> (r: String)
    ensures
        r@ == spec_peer_error(token@),
{
    let mut r = "Peer '".to_owned();
    r.append(token);
    r.append("' does not exist.");
    r
}

/// Interprets one line that begins with the command prefix.
pub fn process_command(line: &str, self_display: &str) -> (r: CommandAction)
    requires
        line@.len() > 0,
        line@[0] == '/',
    ensures
        spec_command_action(spec_tokenize(line@), self_display@, r),
{
    proof {
        lemma_tokenize_nonempty(line@);
        reveal_strlit("/bytestream");
        reveal_strlit("/whisper");
        reveal_strlit("/id");
        assert("/bytestream"@.len() == 11 && "/whisper"@.len() == 8 && "/id"@.len() == 3);
    }
    let tokens = tokenize(line);
    let ghost toks = spec_tokenize(line@);
    proof {
        assert(toks.len() == tokens@.len());
        assert(toks[0] == tokens@[0]@);
    }
    if str_eq(tokens[0].as_str(), "/bytestream") {
        if tokens.len() != 3 {
            CommandAction::ShowText { text: "Usage: /bytestream <peer_id> <filename>".to_owned() }
        } else {
            proof {
                assert(toks[1] == tokens@[1]@);
                assert(toks[2] == tokens@[2]@);
            }
            match PeerIdent::parse(tokens[1].as_str()) {
                Some(peer) => {
                    let mut note = "Sent bytestream for ".to_owned();
                    note.append(tokens[2].as_str());
                    note.append(" to peer: ");
                    note.append(tokens[1].as_str());
                    let request = FileRequest(tokens[2].clone());
                    CommandAction::FileRequestTo { peer, request, note }
                },
                None => CommandAction::ShowText { text: peer_error(tokens[1].as_str()) },
            }
        }
    } else if str_eq(tokens[0].as_str(), "/whisper") {
        if tokens.len() < 3 {
            CommandAction::ShowText { text: "Usage: /whisper <peer_id> <message>".to_owned() }
        } else {
            proof {
                assert(toks[1] == tokens@[1]@);
                assert(views_of(tokens@) == toks);
            }
            match PeerIdent::parse(tokens[1].as_str()) {
                Some(peer) => {
                    let body = join_from(&tokens, 2);
                    let message = DirectMessage { sender: self_display.to_owned(), message: body };
                    CommandAction::Whisper { peer, message }
                },
                None => CommandAction::ShowText { text: peer_error(tokens[1].as_str()) },
            }
        }
    } else if str_eq(tokens[0].as_str(), "/id") {
        let mut text = "Your peer id: ".to_owned();
        text.append(self_display);
        CommandAction::ShowText { text }
    } else {
        let mut text = "Invalid command: ".to_owned();
        text.append(tokens[0].as_str());
        CommandAction::ShowText { text }
    }
}

} // verus!
