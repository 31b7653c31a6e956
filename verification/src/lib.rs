//! Bootstrap core of an anonymity-network client.
//!
//! The crate discovers which relays exist on the network, keeps that view
//! fresh under a two-tier time-to-live policy, and prepares the first,
//! most sensitive connection: a bridge reached over a disguised
//! WebSocket-framed transport.

pub mod consensus;
pub mod directory;
pub mod error;
pub mod hexfmt;
pub mod httpmsg;
pub mod marker;
pub mod netdoc;
pub mod numfmt;
pub mod resolve;
pub mod relay;
pub mod webtunnel;
