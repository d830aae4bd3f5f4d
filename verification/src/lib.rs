//! Core logic of a Spotify-to-YouTube clipboard bridge: an authenticated
//! session is established and refreshed, playback is polled, repeated
//! observations of one track are suppressed, and a genuine track change is
//! turned into a video search whose top result lands on the clipboard.
//!
//! Everything here is pure decision logic over plain values; the surrounding
//! process does the network and clipboard work and feeds the outcomes back in.

pub mod auth;
pub mod matcher;
pub mod poller;
pub mod search;
pub mod urlenc;
