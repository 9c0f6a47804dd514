//! The identity-resolution correlator: the table of in-flight directory
//! lookups, keyed by an opaque lookup id, and the handling of directory
//! query outcomes.
//!
//! Each inbound broadcast message registers exactly one entry; each entry
//! is removed at most once, whether the lookup succeeds, finds nothing, or
//! fails — so no message is ever resolved twice and a failed lookup leaks
//! nothing.

use crate::strings::bytes_to_string;
use std::collections::HashMap;
use vstd::prelude::*;
use vstd::string::StringExecFns;
use vstd::utf8::decode_utf8;
use vstd::utf8::valid_utf8;

verus! {

broadcast use vstd::std_specs::hash::group_hash_axioms;

/// One in-flight directory lookup: the broadcast sender it resolves and
/// the message text waiting on it.
pub struct PendingLookup {
    pub sender: String,
    pub text: String,
}

/// The table of in-flight lookups, modelled as a map from lookup id to the
/// (sender, text) pair waiting on it.
pub struct LookupTable {
    entries: HashMap<u64, PendingLookup>,
}

impl View for LookupTable {
    type V = Map<u64, (Seq<char>, Seq<char>)>;

    closed spec fn view(&self) -> Map<u64, (Seq<char>, Seq<char>)> {
        self.entries@.map_values(|p: PendingLookup| (p.sender@, p.text@))
    }
}

impl LookupTable {
    pub fn new() -> (r: LookupTable)
        ensures
            r@ == Map::<u64, (Seq<char>, Seq<char>)>::empty(),
    {
        let entries: HashMap<u64, PendingLookup> = HashMap::new();
        proof {
            assert(entries@.map_values(|p: PendingLookup| (p.sender@, p.text@)) =~= Map::<
                u64,
                (Seq<char>, Seq<char>),
            >::empty());
        }
        LookupTable { entries }
    }

    /// How many lookups are in flight.
    pub fn len(&self) -> (r: usize)
        ensures
            r == self@.len(),
    {
        proof {
            assert(self@.dom() =~= self.entries@.dom());
        }
        self.entries.len()
    }

    /// Records the lookup issued for an inbound broadcast message under the
    /// id the directory returned for it.
    pub fn register(&mut self, id: u64, sender: String, text: String)
        ensures
            final(self)@ == old(self)@.insert(id, (sender@, text@)),
    {
        let ghost entries_old = self.entries@;
        let entry = PendingLookup { sender, text };
        let ghost pair = (entry.sender@, entry.text@);
        self.entries.insert(id, entry);
        proof {
            assert(self.entries@.map_values(|p: PendingLookup| (p.sender@, p.text@))
                =~= entries_old.map_values(|p: PendingLookup| (p.sender@, p.text@)).insert(
                id,
                pair,
            ));
        }
    }

    /// Removes and returns the entry waiting on `id`, if any; a second call
    /// with the same id finds nothing and changes nothing.
    pub fn take(&mut self, id: u64) -> (r: Option<PendingLookup>)
        ensures
            final(self)@ == old(self)@.remove(id),
            r is Some <==> old(self)@.contains_key(id),
            r matches Some(p) ==> (p.sender@, p.text@) == old(self)@[id],
    {
        let ghost entries_old = self.entries@;
        let r = self.entries.remove(&id);
        proof {
            assert(self.entries@.map_values(|p: PendingLookup| (p.sender@, p.text@))
                =~= entries_old.map_values(|p: PendingLookup| (p.sender@, p.text@)).remove(id));
        }
        r
    }
}

/// Law: a pending lookup is created once and resolved at most once. Under
/// a fresh id, the registered entry is present with exactly its data; the
/// first resolution removes it, restoring the table; and resolving the
/// same id again finds nothing and changes nothing — on success and
/// failure alike, so a failed lookup cannot leak the entry either.
pub proof fn lemma_pending_lookup_lifecycle(
    m: Map<u64, (Seq<char>, Seq<char>)>,
    id: u64,
    entry: (Seq<char>, Seq<char>),
)
    requires
        !m.contains_key(id),
    ensures
        m.insert(id, entry).contains_key(id),
        m.insert(id, entry)[id] == entry,
        !m.insert(id, entry).remove(id).contains_key(id),
        m.insert(id, entry).remove(id) =~= m,
        m.insert(id, entry).remove(id).remove(id) =~= m,
{
}

/// The outcome the directory reports for an outbound query, as delivered
/// by the transport.
pub enum QueryOutcome {
    /// A get finished and found a record with this value.
    RecordFound { value: Vec<u8> },
    /// A get finished without finding a record.
    RecordNotFound,
    /// A get failed (directory unreachable, timeout).
    GetFailed { error: String },
    /// A put finished.
    PutConfirmed,
    /// A put failed.
    PutFailed { error: String },
    /// Progress on some other kind of query; ignored.
    OtherProgress,
}

/// Handles one directory query outcome: removes the pending lookup waiting
/// on `id` — exactly once, on success and failure alike — and yields the
/// line to display, if any. A found nickname record is shown as
/// `nickname: text`; a missing, unreadable, or unresolvable nickname falls
/// back to the sender's raw identity.
pub fn process_outbound_query(pending: &mut LookupTable, id: u64, result: QueryOutcome) -> (r:
    Option<String>)
    ensures
        match result {
            QueryOutcome::RecordFound { value } => {
                &&& final(pending)@ == old(pending)@.remove(id)
                &&& (old(pending)@.contains_key(id) ==> (r matches Some(text) && text@
                    == if valid_utf8(value@) {
                    decode_utf8(value@) + ": "@ + old(pending)@[id].1
                } else {
                    old(pending)@[id].0 + ": "@ + old(pending)@[id].1
                }))
                &&& (!old(pending)@.contains_key(id) ==> r is None)
            },
            QueryOutcome::RecordNotFound => {
                &&& final(pending)@ == old(pending)@.remove(id)
                &&& (old(pending)@.contains_key(id) ==> (r matches Some(text) && text@ == old(
                    pending,
                )@[id].0 + ": "@ + old(pending)@[id].1))
                &&& (!old(pending)@.contains_key(id) ==> r is None)
            },
            QueryOutcome::GetFailed { error } => {
                &&& final(pending)@ == old(pending)@.remove(id)
                &&& r matches Some(text) && text@ == "Failed to GET record. Err: "@ + error@
            },
            QueryOutcome::PutConfirmed => final(pending)@ == old(pending)@ && r is None,
            QueryOutcome::PutFailed { error } => {
                &&& final(pending)@ == old(pending)@
                &&& r matches Some(text) && text@ == "Failed to PUT record. Err: "@ + error@
            },
            QueryOutcome::OtherProgress => final(pending)@ == old(pending)@ && r is None,
        },
{
    match result {
        QueryOutcome::RecordFound { value } => {
            match pending.take(id) {
                Some(entry) => {
                    match bytes_to_string(value) {
                        Some(nickname) => {
                            let mut text = nickname;
                            text.append(": ");
                            text.append(entry.text.as_str());
                            Some(text)
                        },
                        None => {
                            let mut text = entry.sender;
                            text.append(": ");
                            text.append(entry.text.as_str());
                            Some(text)
                        },
                    }
                },
                None => None,
            }
        },
        QueryOutcome::RecordNotFound => {
            match pending.take(id) {
                Some(entry) => {
                    let mut text = entry.sender;
                    text.append(": ");
                    text.append(entry.text.as_str());
                    Some(text)
                },
                None => None,
            }
        },
        QueryOutcome::GetFailed { error } => {
            let _ = pending.take(id);
            let mut text = "Failed to GET record. Err: ".to_owned();
            text.append(error.as_str());
            Some(text)
        },
        QueryOutcome::PutConfirmed => None,
        QueryOutcome::PutFailed { error } => {
            let mut text = "Failed to PUT record. Err: ".to_owned();
            text.append(error.as_str());
            Some(text)
        },
        QueryOutcome::OtherProgress => None,
    }
}

} // verus!
