//! The engine's laws, each proved over the spec functions that the
//! operations' contracts are stated with.

use vstd::prelude::*;

use crate::HandleId;
use crate::models::{DubaServers, Song};
use crate::player::{apply_transport_action, AudibleState, TransportAction};
use crate::playlists::{spec_line_song, spec_songs_of_lines};
use crate::registry::spec_push_queue;

verus! {

broadcast use vstd::seq_lib::group_to_multiset_ensures;

/// At most one handle is active for a tenant: the registry keeps the active
/// handle in one optional field, so any two active handles of the same
/// tenant are the same one.
pub proof fn lemma_one_active_handle(s: DubaServers, guild_id: u64, h1: HandleId, h2: HandleId)
    requires
        s.handle_of(guild_id) == Some(h1),
        s.handle_of(guild_id) == Some(h2),
    ensures
        h1 == h2,
{
}

/// The track that becomes active leaves the queue as it does so: taking the
/// front removes exactly one instance of that track, so the active track is
/// not simultaneously a waiting one.
pub proof fn lemma_active_track_leaves_queue(q: Seq<Song>)
    requires
        q.len() > 0,
    ensures
        q.drop_first().to_multiset() == q.to_multiset().remove(q[0]),
{
    assert(q.remove(0) =~= q.drop_first());
    assert(q.remove(0).to_multiset() =~= q.to_multiset().remove(q[0]));
}

/// The same, on the registry's transition: when a start-next round pops the
/// tenant's front track (as `get_next_song` promises), the queue afterwards
/// holds one instance fewer of exactly that track.
pub proof fn lemma_started_track_not_waiting(
    pre: DubaServers,
    post: DubaServers,
    guild_id: u64,
    song: Song,
)
    requires
        pre.queue_of(guild_id).len() > 0,
        song == pre.queue_of(guild_id)[0],
        post.queue_of(guild_id) == pre.queue_of(guild_id).drop_first(),
    ensures
        post.queue_of(guild_id).to_multiset() == pre.queue_of(guild_id).to_multiset().remove(song),
{
    lemma_active_track_leaves_queue(pre.queue_of(guild_id));
}

/// Once the queue is emptied and the handle stopped, an end-of-track round
/// starts nothing: whatever else the state holds, the start condition is
/// false while the queue is empty.
pub proof fn lemma_empty_queue_starts_nothing(s: DubaServers, guild_id: u64)
    requires
        s.queue_of(guild_id).len() == 0,
    ensures
        !s.spec_should_start(guild_id),
{
}

/// Pausing and then unpausing is the identity on the audible state of a
/// rendering track: it is audible before and audible after. (A track that
/// is already paused comes out playing, so the law is stated of a rendering
/// one.)
pub proof fn lemma_pause_unpause_identity(state: AudibleState)
    requires
        state == AudibleState::Playing,
    ensures
        apply_transport_action(
            apply_transport_action(state, TransportAction::PauseTrack),
            TransportAction::ResumeTrack,
        ) == state,
{
}

/// Playing one track into an idle tenant: enqueueing it on the empty queue
/// and then taking the front hands back exactly that track and leaves the
/// queue empty again, so the track goes straight to the active slot.
pub proof fn lemma_play_on_empty_queue(song: Song)
    ensures
        spec_push_queue(Seq::<Song>::empty(), song, true) == seq![song],
        spec_push_queue(Seq::<Song>::empty(), song, true)[0] == song,
        spec_push_queue(Seq::<Song>::empty(), song, true).drop_first() == Seq::<Song>::empty(),
{
    assert(spec_push_queue(Seq::<Song>::empty(), song, true) =~= seq![song]);
    assert(seq![song].drop_first() =~= Seq::<Song>::empty());
}

/// Expander output whose every line yields a track loses none of them.
pub proof fn lemma_all_lines_yield_tracks(lines: Seq<Seq<char>>)
    requires
        forall|i: int| 0 <= i < lines.len() ==> spec_line_song(#[trigger] lines[i]) is Some,
    ensures
        spec_songs_of_lines(lines).len() == lines.len(),
    decreases lines.len(),
{
    if lines.len() > 0 {
        let prefix = lines.drop_last();
        assert(forall|i: int|
            0 <= i < prefix.len() ==> spec_line_song(#[trigger] prefix[i]) is Some);
        lemma_all_lines_yield_tracks(prefix);
        assert(spec_line_song(lines.last()) is Some);
    }
}

/// One bad line of N: when exactly one line of the expander's output yields
/// no track (it does not parse — or, one step beyond that wording, it parses
/// without a URL, which the data model's non-empty-URL rule also drops) and
/// every other line yields one, exactly N - 1 tracks come out, and no error:
/// the result is non-empty whenever N > 1.
pub proof fn lemma_one_bad_line(lines: Seq<Seq<char>>, bad: int)
    requires
        0 <= bad < lines.len(),
        spec_line_song(lines[bad]) is None,
        forall|i: int|
            0 <= i < lines.len() && i != bad ==> spec_line_song(#[trigger] lines[i]) is Some,
    ensures
        spec_songs_of_lines(lines).len() == lines.len() - 1,
    decreases lines.len(),
{
    let prefix = lines.drop_last();
    if bad == lines.len() - 1 {
        assert(forall|i: int|
            0 <= i < prefix.len() ==> spec_line_song(#[trigger] prefix[i]) is Some);
        lemma_all_lines_yield_tracks(prefix);
    } else {
        assert(prefix[bad] == lines[bad]);
        lemma_one_bad_line(prefix, bad);
        assert(spec_line_song(lines.last()) is Some);
    }
}

/// What a valid goto leaves in the queue: skipping to the k-th of the
/// waiting tracks keeps the last `len - k + 1` of them, the chosen track at
/// the front.
pub proof fn lemma_goto_keeps_tail(q: Seq<Song>, k: u64)
    requires
        1 <= k <= q.len(),
    ensures
        q.skip(k - 1).len() == q.len() - (k - 1),
        q.skip(k - 1)[0] == q[k - 1],
{
}

} // verus!
