//! Peer identities in their textual display form.
//!
//! A peer identity is an opaque, self-certifying identifier; this library
//! holds it as its display text and leaves the parse itself to libp2p.

use vstd::prelude::*;

verus! {

/// Whether libp2p accepts `s` as the textual (base58 multihash) form of a
/// peer identity. The parse is computed from the characters alone, so its
/// outcome can be given a name.
pub uninterp spec fn valid_peer_text(s: Seq<char>) -> bool;

/// Relies on `libp2p_identity::PeerId::from_str`: a pure parse of the
/// base58 multihash text form of a peer identity, succeeding exactly on
/// well-formed ones.
#[verifier::external_body]
fn peer_text_parses(s: &str) -> (r: bool)
    ensures
        r == valid_peer_text(s@),
{
    <libp2p_identity::PeerId as core::str::FromStr>::from_str(s).is_ok()
}

/// A peer identity in display form, known to be well-formed.
pub struct PeerIdent {
    text: String,
}

impl View for PeerIdent {
    type V = Seq<char>;

    closed spec fn view(&self) -> Seq<char> {
        self.text@
    }
}

impl PeerIdent {
    /// Well-formedness: the text parses as a peer identity.
    pub open spec fn wf(&self) -> bool {
        valid_peer_text(self@)
    }

    /// Parses a user-supplied token into a peer identity; rejects exactly
    /// the tokens that libp2p cannot parse.
    pub fn parse(s: &str) -> (r: Option<PeerIdent>)
        ensures
            r is Some <==> valid_peer_text(s@),
            r matches Some(p) ==> p@ == s@ && p.wf(),
    {
        if peer_text_parses(s) {
            Some(PeerIdent { text: s.to_owned() })
        } else {
            None
        }
    }

    /// The display text of this identity.
    pub fn text(&self) -> (r: &str)
        ensures
            r@ == self@,
    {
        self.text.as_str()
    }
}

} // verus!
