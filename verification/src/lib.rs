//! Sync orchestration and controller dispatch for a messaging client.
//!
//! The library models the core of a client façade for a remote messaging
//! server: the lifecycle flags a client exposes while a long-lived sync loop
//! runs ([`state::ClientState`]), the partition of the visible rooms into
//! groups and plain conversations ([`classify`]), the bounded hand-off
//! channels through which typing notifications and the first-synced signal
//! reach an external consumer ([`channels`]), the lazily created processing
//! controllers ([`controllers`]), and the per-response dispatch algorithm of
//! the sync loop itself ([`sync`]).
//!
//! The transport that actually talks to the server is an external
//! collaborator: a driver obtains each response from it, hands the response
//! to [`client::Client::process_response`], and keeps polling for as long as
//! the returned [`sync::LoopCtrl`] says to continue.

pub mod channels;
pub mod classify;
pub mod client;
pub mod controllers;
pub mod response;
pub mod state;
pub mod sync;
