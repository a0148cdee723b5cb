//! Core of a personal API backend: the playback-status protocol with OAuth
//! token refresh, and the cache-first weather protocol.
use vstd::prelude::*;

pub mod config;
pub mod tokens;
pub mod playback;
pub mod weather;

verus! {

} // verus!
