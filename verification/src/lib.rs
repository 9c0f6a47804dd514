//! Core logic of a peer-to-peer chat node: command interpretation, identity
//! resolution for inbound broadcasts, and the two point-to-point exchanges
//! (private messages and file transfer), specified and verified over
//! mathematical models of the session state.

pub mod commands;
pub mod directmessage;
pub mod lookups;
pub mod peer;
pub mod sendfile;
pub mod session;
pub mod strings;
pub mod tokenize;
