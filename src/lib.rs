//! Watches the rank status of one osu! beatmap: the decisions of the background
//! polling job, the session, the update queue between the jobs and the window,
//! and the window's fold over that queue.
use vstd::prelude::*;

pub mod api;
pub mod channel;
pub mod client;
pub mod cover;
pub mod gui;
pub mod text;
pub mod types;

verus! {

/// How long a polling job waits between two fetches, in milliseconds.
pub const POLL_DELAY_MS: u64 = 1000;

} // verus!
