//! Per-guild voice-session and playback-queue controller for a chat-platform
//! music bot.
//!
//! The crate owns the state that matters: an ordered playback queue per guild
//! ([`queue::GuildQueue`]), a registry mapping each guild to at most one voice
//! session ([`registry::SessionRegistry`]), and the command logic that decides,
//! for every user command, how that state changes and which transport primitive
//! to invoke ([`controller`]). The chat gateway, the audio transport and the
//! media resolver are external collaborators: the host process performs their
//! calls and feeds the observed outcomes back into the verified functions here.
pub mod controller;
pub mod queue;
pub mod registry;

use vstd::prelude::*;

verus! {

/// Type-map key under which the host process stores its shared HTTP client.
pub struct HttpKey;

/// Type-map key under which the host process stores its database pool.
pub struct SqlitePoolKey;

} // verus!

