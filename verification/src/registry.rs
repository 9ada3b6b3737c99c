//! Registry operations: every mutation of a tenant's queue or active-handle
//! field goes through these, so their contracts carry the engine's
//! invariants.

use std::collections::VecDeque;
use rand::seq::SliceRandom;
use vstd::prelude::*;

use crate::HandleId;
use crate::models::{DubaServers, ServerData, Song};

verus! {

broadcast use vstd::std_specs::hash::group_hash_axioms, vstd::seq_lib::group_to_multiset_ensures;

/// The engine's own error: an operation named a tenant that the registry has
/// no entry for.
#[derive(Clone, Copy, Debug, PartialEq, Eq, Structural)]
pub enum EngineError {
    GuildNotFound,
}

/// What an enqueue does to a queue: append at the back, or prepend at the
/// front (the "play next" position).
pub open spec fn spec_push_queue(q: Seq<Song>, song: Song, insert_last: bool) -> Seq<Song> {
    if insert_last {
        q.push(song)
    } else {
        seq![song] + q
    }
}

/// Relies on rand::seq::SliceRandom::shuffle (rand 0.8): a Fisher-Yates
/// shuffle that permutes the slice in place by swaps, so exactly the old
/// elements remain, in some order.
#[verifier::external_body]
fn shuffle_tracks(queue: &mut VecDeque<Song>)
    ensures
        final(queue)@.to_multiset() == old(queue)@.to_multiset(),
{
    queue.make_contiguous().shuffle(&mut rand::thread_rng());
}

impl DubaServers {
    /// Enqueue one track for the tenant, at the back or at the front; a
    /// tenant seen for the first time gets a fresh entry holding just this
    /// track and no active handle.
    pub fn push_song_to_guild(&mut self, guild_id: u64, song: Song, insert_last: bool)
        requires
            old(self).wf(),
            song.wf(),
        ensures
            final(self).wf(),
            final(self).queue_of(guild_id) == spec_push_queue(
                old(self).queue_of(guild_id),
                song,
                insert_last,
            ),
            final(self).handle_of(guild_id) == old(self).handle_of(guild_id),
            final(self).has_tenant(guild_id),
            final(self).others_unchanged(*old(self), guild_id),
    {
        match self.servers.remove(&guild_id) {
            Some(mut server) => {
                if insert_last {
                    server.queue.push_back(song);
                } else {
                    server.queue.push_front(song);
                }
                self.servers.insert(guild_id, server);
            },
            None => {
                let mut queue = VecDeque::<Song>::new();
                queue.push_back(song);
                let server = ServerData { track_handle: None, queue };
                self.servers.insert(guild_id, server);
            },
        }
    }

    /// Append a whole list of tracks at the back of the tenant's queue, in
    /// order; a tenant seen for the first time gets a fresh entry.
    pub fn push_songs_list_to_server(&mut self, guild_id: u64, songs: Vec<Song>)
        requires
            old(self).wf(),
            forall|i: int| 0 <= i < songs@.len() ==> (#[trigger] songs@[i]).wf(),
        ensures
            final(self).wf(),
            final(self).queue_of(guild_id) == old(self).queue_of(guild_id) + songs@,
            final(self).handle_of(guild_id) == old(self).handle_of(guild_id),
            final(self).has_tenant(guild_id),
            final(self).others_unchanged(*old(self), guild_id),
    {
        let mut server = match self.servers.remove(&guild_id) {
            Some(server) => server,
            None => ServerData { track_handle: None, queue: VecDeque::<Song>::new() },
        };
        let ghost start_queue = server.queue@;
        let ghost start_handle = server.track_handle;
        let mut rest = songs;
        while rest.len() > 0
            invariant
                server.queue@ + rest@ == start_queue + songs@,
                server.track_handle == start_handle,
                server.wf(),
                forall|i: int| 0 <= i < rest@.len() ==> (#[trigger] rest@[i]).wf(),
            decreases rest@.len(),
        {
            let song = rest.remove(0);
            server.queue.push_back(song);
        }
        assert(server.queue@ == start_queue + songs@);
        self.servers.insert(guild_id, server);
    }

    /// Empty the tenant's queue; the active handle is untouched. Fails when
    /// the tenant has no entry.
    pub fn clear_queue(&mut self, guild_id: u64) -> (r: Result<(), EngineError>)
        requires
            old(self).wf(),
        ensures
            final(self).wf(),
            r is Ok <==> old(self).has_tenant(guild_id),
            final(self).queue_of(guild_id) == if r is Ok {
                Seq::<Song>::empty()
            } else {
                old(self).queue_of(guild_id)
            },
            final(self).handle_of(guild_id) == old(self).handle_of(guild_id),
            final(self).has_tenant(guild_id) == old(self).has_tenant(guild_id),
            final(self).others_unchanged(*old(self), guild_id),
    {
        match self.servers.remove(&guild_id) {
            Some(mut server) => {
                server.queue.clear();
                self.servers.insert(guild_id, server);
                Ok(())
            },
            None => Err(EngineError::GuildNotFound),
        }
    }

    /// Record the transport handle of the track that just started rendering;
    /// it replaces any previous one. Fails when the tenant has no entry.
    pub fn set_new_track_handle(&mut self, track_handle: HandleId, guild_id: u64) -> (r: Result<
        (),
        EngineError,
    >)
        requires
            old(self).wf(),
        ensures
            final(self).wf(),
            r is Ok <==> old(self).has_tenant(guild_id),
            final(self).handle_of(guild_id) == if r is Ok {
                Some(track_handle)
            } else {
                old(self).handle_of(guild_id)
            },
            final(self).queue_of(guild_id) == old(self).queue_of(guild_id),
            final(self).has_tenant(guild_id) == old(self).has_tenant(guild_id),
            final(self).others_unchanged(*old(self), guild_id),
    {
        match self.servers.remove(&guild_id) {
            Some(mut server) => {
                server.track_handle = Some(track_handle);
                self.servers.insert(guild_id, server);
                Ok(())
            },
            None => Err(EngineError::GuildNotFound),
        }
    }

    /// Forget the tenant's active handle: the engine's view of "nothing is
    /// rendering". Fails when the tenant has no entry.
    pub fn remove_track_handle(&mut self, guild_id: u64) -> (r: Result<(), EngineError>)
        requires
            old(self).wf(),
        ensures
            final(self).wf(),
            r is Ok <==> old(self).has_tenant(guild_id),
            final(self).handle_of(guild_id) == if r is Ok {
                None::<HandleId>
            } else {
                old(self).handle_of(guild_id)
            },
            final(self).queue_of(guild_id) == old(self).queue_of(guild_id),
            final(self).has_tenant(guild_id) == old(self).has_tenant(guild_id),
            final(self).others_unchanged(*old(self), guild_id),
    {
        match self.servers.remove(&guild_id) {
            Some(mut server) => {
                server.track_handle = None;
                self.servers.insert(guild_id, server);
                Ok(())
            },
            None => Err(EngineError::GuildNotFound),
        }
    }

    /// Read the tenant's active handle.
    pub fn get_track_handle(&self, guild_id: u64) -> (r: Option<HandleId>)
        ensures
            r == self.handle_of(guild_id),
    {
        match self.servers.get(&guild_id) {
            Some(server) => server.track_handle,
            None => None,
        }
    }

    /// How many tracks wait in the tenant's queue.
    pub fn queue_len(&self, guild_id: u64) -> (r: usize)
        ensures
            r == self.queue_of(guild_id).len(),
    {
        match self.servers.get(&guild_id) {
            Some(server) => server.queue.len(),
            None => 0,
        }
    }

    /// Take the next track to play off the front of the tenant's queue.
    /// Returns nothing exactly when the queue is empty (in particular for an
    /// unregistered tenant), and then changes nothing.
    pub fn get_next_song(&mut self, guild_id: u64) -> (r: Option<Song>)
        requires
            old(self).wf(),
        ensures
            final(self).wf(),
            r is Some <==> old(self).queue_of(guild_id).len() > 0,
            r matches Some(song) ==> {
                &&& song == old(self).queue_of(guild_id)[0]
                &&& song.wf()
                &&& final(self).queue_of(guild_id) == old(self).queue_of(guild_id).drop_first()
            },
            r is None ==> final(self).queue_of(guild_id) == old(self).queue_of(guild_id),
            final(self).handle_of(guild_id) == old(self).handle_of(guild_id),
            final(self).has_tenant(guild_id) == old(self).has_tenant(guild_id),
            final(self).others_unchanged(*old(self), guild_id),
    {
        match self.servers.remove(&guild_id) {
            Some(mut server) => {
                let song = server.queue.pop_front();
                self.servers.insert(guild_id, server);
                song
            },
            None => None,
        }
    }

    /// Skip to the queue's `index`-th track, counting from 1 as the display
    /// does: the tracks before it are discarded and it becomes the front.
    /// An index outside `1 ..= len` is invalid and changes nothing.
    pub fn drop_to_index(&mut self, guild_id: u64, index: u64) -> (valid: bool)
        requires
            old(self).wf(),
        ensures
            final(self).wf(),
            valid <==> 1 <= index <= old(self).queue_of(guild_id).len(),
            valid ==> final(self).queue_of(guild_id) == old(self).queue_of(guild_id).skip(
                index - 1,
            ),
            !valid ==> final(self).queue_of(guild_id) == old(self).queue_of(guild_id),
            final(self).handle_of(guild_id) == old(self).handle_of(guild_id),
            final(self).has_tenant(guild_id) == old(self).has_tenant(guild_id),
            final(self).others_unchanged(*old(self), guild_id),
    {
        match self.servers.remove(&guild_id) {
            Some(mut server) => {
                let len = server.queue.len();
                let valid = 1 <= index && index <= len as u64;
                if valid {
                    let ghost pre_queue = server.queue@;
                    let ghost pre_handle = server.track_handle;
                    let mut dropped: u64 = 0;
                    while dropped < index - 1
                        invariant
                            0 <= dropped <= index - 1,
                            index <= pre_queue.len(),
                            server.queue@ == pre_queue.skip(dropped as int),
                            server.track_handle == pre_handle,
                            server.wf(),
                        decreases index - 1 - dropped,
                    {
                        let popped = server.queue.pop_front();
                        proof {
                            assert(pre_queue.skip(dropped as int).drop_first() == pre_queue.skip(
                                dropped + 1,
                            ));
                        }
                        dropped = dropped + 1;
                    }
                }
                self.servers.insert(guild_id, server);
                valid
            },
            None => false,
        }
    }

    /// Reorder the tenant's queue at random. Which order comes out is left
    /// open; exactly the old tracks remain. Fails when the tenant has no
    /// entry.
    pub fn shuffle_queue(&mut self, guild_id: u64) -> (r: Result<(), EngineError>)
        requires
            old(self).wf(),
        ensures
            final(self).wf(),
            r is Ok <==> old(self).has_tenant(guild_id),
            final(self).queue_of(guild_id).to_multiset() == old(self).queue_of(
                guild_id,
            ).to_multiset(),
            final(self).handle_of(guild_id) == old(self).handle_of(guild_id),
            final(self).has_tenant(guild_id) == old(self).has_tenant(guild_id),
            final(self).others_unchanged(*old(self), guild_id),
    {
        match self.servers.remove(&guild_id) {
            Some(mut server) => {
                let ghost pre_queue = server.queue@;
                shuffle_tracks(&mut server.queue);
                proof {
                    assert forall|i: int|
                        0 <= i < server.queue@.len() implies (#[trigger] server.queue@[i]).wf() by {
                        let song = server.queue@[i];
                        assert(server.queue@.to_multiset().contains(song));
                        assert(pre_queue.to_multiset().contains(song));
                        assert(pre_queue.contains(song));
                    }
                }
                self.servers.insert(guild_id, server);
                Ok(())
            },
            None => Err(EngineError::GuildNotFound),
        }
    }
}

} // verus!
