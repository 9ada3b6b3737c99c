//! The player's command decisions: what each control command does to the
//! tenant's state and what it asks of the voice transport. The transport
//! itself acts outside the library; these functions fix the decision and
//! hand back the action.

use vstd::prelude::*;
use vstd::string::StringExecFns;

use crate::HandleId;
use crate::commands::spec_parse_u64;
use crate::commands::parse_index;
use crate::models::{BotData, DubaServers, Song};
use crate::registry::EngineError;
use crate::textfmt::already_stopped_reply;
use crate::textfmt::invalid_index_reply;

verus! {

broadcast use vstd::std_specs::hash::group_hash_axioms;

/// What the host must ask of the transport handle on the engine's behalf.
#[derive(Clone, Copy, Debug, PartialEq, Eq, Structural)]
pub enum TransportAction {
    PauseTrack,
    ResumeTrack,
    StopTrack,
}

/// The outcome of a control command: an action on the active handle, a chat
/// reply, or nothing at all.
pub enum ControlOutcome {
    Transport(HandleId, TransportAction),
    Reply(String),
    NoOp,
}

/// The engine's model of a transport handle's audible state.
#[derive(Clone, Copy, Debug, PartialEq, Eq, Structural)]
pub enum AudibleState {
    Playing,
    Paused,
    Stopped,
}

/// What each transport action does to a handle's audible state: pausing
/// silences it, resuming renders it, stopping ends it.
pub open spec fn apply_transport_action(state: AudibleState, action: TransportAction) -> AudibleState {
    match action {
        TransportAction::PauseTrack => AudibleState::Paused,
        TransportAction::ResumeTrack => AudibleState::Playing,
        TransportAction::StopTrack => AudibleState::Stopped,
    }
}

impl DubaServers {
    /// Nothing renders and a track waits: exactly then must a start-next
    /// round begin.
    pub open spec fn spec_should_start(self, guild_id: u64) -> bool {
        self.handle_of(guild_id) is None && self.queue_of(guild_id).len() > 0
    }

    /// Whether a start-next round must begin for the tenant.
    pub fn should_start(&self, guild_id: u64) -> (r: bool)
        ensures
            r == self.spec_should_start(guild_id),
    {
        let handle = self.get_track_handle(guild_id);
        let len = self.queue_len(guild_id);
        handle.is_none() && len > 0
    }

    /// Begin a start-next round in one step: when nothing renders and a
    /// track waits, take the front track and hold the active slot with the
    /// given provisional handle id. Decision and reservation are one
    /// mutation, so of two concurrent rounds under the same exclusive
    /// access, the second finds the slot taken and starts nothing. The host
    /// replaces the provisional id once the transport hands back a real
    /// handle, or releases the slot when the track cannot start.
    pub fn begin_start(&mut self, guild_id: u64, provisional_handle: HandleId) -> (r: Option<Song>)
        requires
            old(self).wf(),
        ensures
            final(self).wf(),
            r is Some <==> old(self).spec_should_start(guild_id),
            r matches Some(song) ==> {
                &&& song == old(self).queue_of(guild_id)[0]
                &&& song.wf()
                &&& final(self).queue_of(guild_id) == old(self).queue_of(guild_id).drop_first()
                &&& final(self).handle_of(guild_id) == Some(provisional_handle)
            },
            r is None ==> {
                &&& final(self).queue_of(guild_id) == old(self).queue_of(guild_id)
                &&& final(self).handle_of(guild_id) == old(self).handle_of(guild_id)
            },
            final(self).has_tenant(guild_id) == old(self).has_tenant(guild_id),
            final(self).others_unchanged(*old(self), guild_id),
    {
        match self.servers.remove(&guild_id) {
            Some(mut server) => {
                if server.track_handle.is_some() {
                    self.servers.insert(guild_id, server);
                    None
                } else {
                    let song = server.queue.pop_front();
                    if song.is_some() {
                        server.track_handle = Some(provisional_handle);
                    }
                    self.servers.insert(guild_id, server);
                    song
                }
            },
            None => None,
        }
    }

    /// The pause command: ask the transport to pause the active track, or
    /// reply that nothing is rendering. State is untouched.
    pub fn pause(&self, guild_id: u64) -> (r: ControlOutcome)
        ensures
            match r {
                ControlOutcome::Transport(h, a) => self.handle_of(guild_id) == Some(h) && a
                    == TransportAction::PauseTrack,
                ControlOutcome::Reply(msg) => self.handle_of(guild_id) is None && msg@
                    == "o_O Already stopped"@,
                ControlOutcome::NoOp => false,
            },
    {
        match self.get_track_handle(guild_id) {
            Some(handle) => ControlOutcome::Transport(handle, TransportAction::PauseTrack),
            None => ControlOutcome::Reply(already_stopped_reply()),
        }
    }

    /// The unpause command: ask the transport to resume the active track, or
    /// reply that nothing is rendering. State is untouched.
    pub fn unpause(&self, guild_id: u64) -> (r: ControlOutcome)
        ensures
            match r {
                ControlOutcome::Transport(h, a) => self.handle_of(guild_id) == Some(h) && a
                    == TransportAction::ResumeTrack,
                ControlOutcome::Reply(msg) => self.handle_of(guild_id) is None && msg@
                    == "o_O Already stopped"@,
                ControlOutcome::NoOp => false,
            },
    {
        match self.get_track_handle(guild_id) {
            Some(handle) => ControlOutcome::Transport(handle, TransportAction::ResumeTrack),
            None => ControlOutcome::Reply(already_stopped_reply()),
        }
    }

    /// The skip command: with tracks waiting, stop the rendering track (its
    /// end-of-track event starts the next one) and forget its handle; with
    /// an empty queue, do nothing at all. The queue itself is untouched.
    pub fn next(&mut self, guild_id: u64) -> (r: ControlOutcome)
        requires
            old(self).wf(),
        ensures
            final(self).wf(),
            final(self).queue_of(guild_id) == old(self).queue_of(guild_id),
            final(self).has_tenant(guild_id) == old(self).has_tenant(guild_id),
            final(self).others_unchanged(*old(self), guild_id),
            match r {
                ControlOutcome::NoOp => {
                    &&& old(self).queue_of(guild_id).len() == 0
                    &&& final(self).handle_of(guild_id) == old(self).handle_of(guild_id)
                },
                ControlOutcome::Transport(h, a) => {
                    &&& old(self).queue_of(guild_id).len() > 0
                    &&& old(self).handle_of(guild_id) == Some(h)
                    &&& a == TransportAction::StopTrack
                    &&& final(self).handle_of(guild_id) is None
                },
                ControlOutcome::Reply(msg) => {
                    &&& old(self).queue_of(guild_id).len() > 0
                    &&& old(self).handle_of(guild_id) is None
                    &&& final(self).handle_of(guild_id) is None
                    &&& msg@ == "o_O Already stopped"@
                },
            },
    {
        let len = self.queue_len(guild_id);
        if len == 0 {
            ControlOutcome::NoOp
        } else {
            let handle = self.get_track_handle(guild_id);
            let _cleared = self.remove_track_handle(guild_id);
            match handle {
                Some(h) => ControlOutcome::Transport(h, TransportAction::StopTrack),
                None => ControlOutcome::Reply(already_stopped_reply()),
            }
        }
    }

    /// The stop command: empty the queue and forget the active handle; the
    /// host then stops the returned handle (if any) and leaves the voice
    /// channel. Afterwards nothing waits and nothing renders. Fails for an
    /// unregistered tenant, which holds no state to clear.
    pub fn stop(&mut self, guild_id: u64) -> (r: Result<ControlOutcome, EngineError>)
        requires
            old(self).wf(),
        ensures
            final(self).wf(),
            r is Ok <==> old(self).has_tenant(guild_id),
            final(self).queue_of(guild_id).len() == 0,
            final(self).handle_of(guild_id) is None,
            final(self).has_tenant(guild_id) == old(self).has_tenant(guild_id),
            final(self).others_unchanged(*old(self), guild_id),
            match r {
                Ok(ControlOutcome::Transport(h, a)) => old(self).handle_of(guild_id) == Some(h)
                    && a == TransportAction::StopTrack,
                Ok(ControlOutcome::Reply(msg)) => old(self).handle_of(guild_id) is None && msg@
                    == "o_O Already stopped"@,
                Ok(ControlOutcome::NoOp) => false,
                Err(e) => !old(self).has_tenant(guild_id) && e == EngineError::GuildNotFound,
            },
    {
        match self.clear_queue(guild_id) {
            Ok(()) => {
                let handle = self.get_track_handle(guild_id);
                let _cleared = self.remove_track_handle(guild_id);
                match handle {
                    Some(h) => Ok(ControlOutcome::Transport(h, TransportAction::StopTrack)),
                    None => Ok(ControlOutcome::Reply(already_stopped_reply())),
                }
            },
            Err(e) => Err(e),
        }
    }

    /// The goto command, given the raw argument text. A valid index `k`
    /// (counting the waiting queue from 1) discards the first `k - 1`
    /// entries, forgets the active handle, and asks the transport to stop
    /// the rendering track, whose end-of-track event then starts the chosen
    /// one; anything else is answered with the invalid-index reply and
    /// changes nothing.
    pub fn goto(&mut self, guild_id: u64, raw: &str) -> (r: ControlOutcome)
        requires
            old(self).wf(),
        ensures
            final(self).wf(),
            final(self).has_tenant(guild_id) == old(self).has_tenant(guild_id),
            final(self).others_unchanged(*old(self), guild_id),
            match r {
                ControlOutcome::Reply(msg) => {
                    &&& (match spec_parse_u64(raw@) {
                        Some(k) => !(1 <= k <= old(self).queue_of(guild_id).len()),
                        None => true,
                    })
                    &&& final(self).queue_of(guild_id) == old(self).queue_of(guild_id)
                    &&& final(self).handle_of(guild_id) == old(self).handle_of(guild_id)
                    &&& msg@ == "Invalid song index. Check the queue to list the songs."@
                },
                ControlOutcome::Transport(h, a) => {
                    &&& (spec_parse_u64(raw@) matches Some(k) && 1 <= k <= old(self).queue_of(
                        guild_id,
                    ).len() && final(self).queue_of(guild_id) == old(self).queue_of(guild_id).skip(
                        k - 1,
                    ))
                    &&& old(self).handle_of(guild_id) == Some(h)
                    &&& a == TransportAction::StopTrack
                    &&& final(self).handle_of(guild_id) is None
                },
                ControlOutcome::NoOp => {
                    &&& (spec_parse_u64(raw@) matches Some(k) && 1 <= k <= old(self).queue_of(
                        guild_id,
                    ).len() && final(self).queue_of(guild_id) == old(self).queue_of(guild_id).skip(
                        k - 1,
                    ))
                    &&& old(self).handle_of(guild_id) is None
                    &&& final(self).handle_of(guild_id) is None
                },
            },
    {
        match parse_index(raw) {
            Some(k) => {
                let valid = self.drop_to_index(guild_id, k);
                if valid {
                    let handle = self.get_track_handle(guild_id);
                    let _cleared = self.remove_track_handle(guild_id);
                    match handle {
                        Some(h) => ControlOutcome::Transport(h, TransportAction::StopTrack),
                        None => ControlOutcome::NoOp,
                    }
                } else {
                    ControlOutcome::Reply(invalid_index_reply())
                }
            },
            None => ControlOutcome::Reply(invalid_index_reply()),
        }
    }

    /// The gateway reported the bot itself removed from the voice channel:
    /// drop the tenant's whole playback state. Afterwards nothing waits and
    /// nothing renders.
    pub fn on_bot_disconnected(&mut self, guild_id: u64)
        requires
            old(self).wf(),
        ensures
            final(self).wf(),
            final(self).queue_of(guild_id).len() == 0,
            final(self).handle_of(guild_id) is None,
            final(self).has_tenant(guild_id) == old(self).has_tenant(guild_id),
            final(self).others_unchanged(*old(self), guild_id),
    {
        let _cleared_queue = self.clear_queue(guild_id);
        let _cleared_handle = self.remove_track_handle(guild_id);
    }
}

/// The decision behind a voice-state update: the tenant's playback state is
/// dropped exactly when the user who left the voice channel (one whose new
/// state names no channel) is the bot itself.
pub fn should_clear_on_voice_update(bot: &BotData, channel_is_none: bool, user_id: u64) -> (r:
    bool)
    ensures
        r == (channel_is_none && bot.id == user_id),
{
    channel_is_none && bot.id == user_id
}

/// The default title for a track whose resolver metadata names none.
pub fn unknown_track_title() -> (s: String)
    ensures
        s@ == "UNKNOWN TRACK"@,
{
    String::from_str("UNKNOWN TRACK")
}

/// Build the track to enqueue from resolver metadata: the source URL is
/// required (and must name something), a missing title falls back to the
/// fixed placeholder, and the duration is kept as given.
pub fn song_from_metadata(
    title: Option<String>,
    source_url: Option<String>,
    duration_secs: Option<u64>,
) -> (r: Option<Song>)
    ensures
        match r {
            Some(song) => {
                &&& source_url matches Some(u) && u@ == song.url@ && u@.len() > 0
                &&& song.duration_secs == duration_secs
                &&& song.wf()
                &&& song.title@ == (match title {
                    Some(t) => t@,
                    None => "UNKNOWN TRACK"@,
                })
            },
            None => (match source_url {
                Some(u) => u@.len() == 0,
                None => true,
            }),
        },
{
    match source_url {
        Some(url) => {
            if url.as_str().is_empty() {
                None
            } else {
                let song_title = match title {
                    Some(t) => t,
                    None => unknown_track_title(),
                };
                Some(Song { title: song_title, url, duration_secs })
            }
        },
        None => None,
    }
}

} // verus!
