//! The engine's user-visible text: decimal numbering, the queue listing,
//! the now-playing announcement, the fixed replies, and the reaction emoji.

use vstd::prelude::*;

use crate::models::{DubaServers, Song};

verus! {

/// The character for one decimal digit.
pub open spec fn spec_digit_char(d: int) -> char {
    if d == 0 {
        '0'
    } else if d == 1 {
        '1'
    } else if d == 2 {
        '2'
    } else if d == 3 {
        '3'
    } else if d == 4 {
        '4'
    } else if d == 5 {
        '5'
    } else if d == 6 {
        '6'
    } else if d == 7 {
        '7'
    } else if d == 8 {
        '8'
    } else {
        '9'
    }
}

/// The decimal notation of a number, most significant digit first, with no
/// leading zeroes (zero itself is "0").
pub open spec fn spec_dec(n: nat) -> Seq<char>
    decreases n,
{
    if n < 10 {
        seq![spec_digit_char(n as int)]
    } else {
        spec_dec(n / 10) + seq![spec_digit_char((n % 10) as int)]
    }
}

/// One decimal digit as a string.
fn digit_str(d: u64) -> (s: String)
    requires
        d < 10,
    ensures
        s@ == seq![spec_digit_char(d as int)],
{
    let lit = if d == 0 {
        "0"
    } else if d == 1 {
        "1"
    } else if d == 2 {
        "2"
    } else if d == 3 {
        "3"
    } else if d == 4 {
        "4"
    } else if d == 5 {
        "5"
    } else if d == 6 {
        "6"
    } else if d == 7 {
        "7"
    } else if d == 8 {
        "8"
    } else {
        "9"
    };
    proof {
        reveal_strlit("0");
        reveal_strlit("1");
        reveal_strlit("2");
        reveal_strlit("3");
        reveal_strlit("4");
        reveal_strlit("5");
        reveal_strlit("6");
        reveal_strlit("7");
        reveal_strlit("8");
        reveal_strlit("9");
        assert(lit@ =~= seq![spec_digit_char(d as int)]);
    }
    String::from_str(lit)
}

/// A number in decimal notation.
pub fn u64_to_dec(n: u64) -> (s: String)
    ensures
        s@ == spec_dec(n as nat),
    decreases n,
{
    if n < 10 {
        digit_str(n)
    } else {
        let mut s = u64_to_dec(n / 10);
        let d = digit_str(n % 10);
        s.append(d.as_str());
        s
    }
}

/// One line of the queue listing: "<position> - <title>", positions counted
/// from 1.
pub open spec fn spec_queue_line(pos: nat, title: Seq<char>) -> Seq<char> {
    spec_dec(pos) + " - "@ + title
}

/// The first `n` queue lines, joined by newlines.
pub open spec fn spec_queue_lines(q: Seq<Song>, n: nat) -> Seq<char>
    recommends
        n <= q.len(),
    decreases n,
{
    if n == 0 {
        Seq::<char>::empty()
    } else if n == 1 {
        spec_queue_line(1, q[0].title@)
    } else {
        spec_queue_lines(q, (n - 1) as nat) + "\n"@ + spec_queue_line(n, q[n - 1].title@)
    }
}

/// How many queue entries the listing shows at most.
pub const MAX_LISTED_SONGS: u64 = 20;

/// The whole reply to the queue command: at most `MAX_LISTED_SONGS` numbered
/// titles in a preformatted block, or a fixed line when the queue is empty.
pub open spec fn spec_queue_message(q: Seq<Song>) -> Seq<char> {
    if q.len() == 0 {
        "The queue is empty!"@
    } else {
        let shown = if q.len() < MAX_LISTED_SONGS { q.len() } else { MAX_LISTED_SONGS as nat };
        "**Queue**:\n```"@ + spec_queue_lines(q, shown) + "```"@
    }
}

impl DubaServers {
    /// Format the tenant's queue for display.
    pub fn queue_message(&self, guild_id: u64) -> (s: String)
        ensures
            s@ == spec_queue_message(self.queue_of(guild_id)),
    {
        broadcast use vstd::std_specs::hash::group_hash_axioms;

        let ghost q = self.queue_of(guild_id);
        match self.servers.get(&guild_id) {
            Some(server) => {
                let len = server.queue.len();
                if len == 0 {
                    String::from_str("The queue is empty!")
                } else {
                    let shown: usize = if (len as u64) < MAX_LISTED_SONGS {
                        len
                    } else {
                        MAX_LISTED_SONGS as usize
                    };
                    let mut s = String::from_str("**Queue**:\n```");
                    let mut i: usize = 0;
                    while i < shown
                        invariant
                            i <= shown <= server.queue@.len(),
                            server.queue@ == q,
                            shown == if q.len() < MAX_LISTED_SONGS {
                                q.len()
                            } else {
                                MAX_LISTED_SONGS as nat
                            },
                            s@ == "**Queue**:\n```"@ + spec_queue_lines(q, i as nat),
                        decreases shown - i,
                    {
                        let ghost pre = s@;
                        if i > 0 {
                            s.append("\n");
                        }
                        let num = u64_to_dec((i + 1) as u64);
                        s.append(num.as_str());
                        s.append(" - ");
                        s.append(server.queue[i].title.as_str());
                        proof {
                            if i == 0 {
                                assert(spec_queue_lines(q, 0).len() == 0);
                                assert(s@ =~= "**Queue**:\n```"@ + spec_queue_lines(q, 1));
                            } else {
                                assert(s@ =~= "**Queue**:\n```"@ + spec_queue_lines(
                                    q,
                                    (i + 1) as nat,
                                ));
                            }
                        }
                        i = i + 1;
                    }
                    s.append("```");
                    proof {
                        assert(s@ =~= spec_queue_message(q));
                    }
                    s
                }
            },
            None => String::from_str("The queue is empty!"),
        }
    }
}

/// The announcement posted when a track starts rendering.
pub open spec fn spec_now_playing(title: Seq<char>, url: Seq<char>) -> Seq<char> {
    "Playing song ["@ + title + "]("@ + url + ")"@
}

/// Build the now-playing announcement for a track.
pub fn now_playing_message(song: &Song) -> (s: String)
    ensures
        s@ == spec_now_playing(song.title@, song.url@),
{
    let mut s = String::from_str("Playing song [");
    s.append(song.title.as_str());
    s.append("](");
    s.append(song.url.as_str());
    s.append(")");
    proof {
        assert(s@ =~= spec_now_playing(song.title@, song.url@));
    }
    s
}

/// The reply when a track's source cannot be started.
pub open spec fn spec_could_not_play(title: Seq<char>, err: Seq<char>) -> Seq<char> {
    "Could not play "@ + title + " due to error "@ + err
}

/// Build the reply for a track whose source failed, from the track's title
/// and the transport's error text.
pub fn could_not_play_message(title: &str, err: &str) -> (s: String)
    ensures
        s@ == spec_could_not_play(title@, err@),
{
    let mut s = String::from_str("Could not play ");
    s.append(title);
    s.append(" due to error ");
    s.append(err);
    proof {
        assert(s@ =~= spec_could_not_play(title@, err@));
    }
    s
}

/// The reply when the resolver finds nothing for the user's input.
pub open spec fn spec_could_not_load(input: Seq<char>) -> Seq<char> {
    "Could not load song for input "@ + input
}

/// Build the reply for an input the resolver found nothing for.
pub fn could_not_load_message(input: &str) -> (s: String)
    ensures
        s@ == spec_could_not_load(input@),
{
    let mut s = String::from_str("Could not load song for input ");
    s.append(input);
    proof {
        assert(s@ =~= spec_could_not_load(input@));
    }
    s
}

/// The reply to a pause, unpause or skip when nothing is rendering.
pub fn already_stopped_reply() -> (s: String)
    ensures
        s@ == "o_O Already stopped"@,
{
    String::from_str("o_O Already stopped")
}

/// The reply to a goto whose index cannot be used.
pub fn invalid_index_reply() -> (s: String)
    ensures
        s@ == "Invalid song index. Check the queue to list the songs."@,
{
    String::from_str("Invalid song index. Check the queue to list the songs.")
}

/// The reply when the requester stands in no voice channel to join.
pub fn not_in_voice_reply() -> (s: String)
    ensures
        s@ == "Not in a voice channel"@,
{
    String::from_str("Not in a voice channel")
}

/// The reply when a track should start but no voice session exists.
pub fn not_in_voice_to_play_reply() -> (s: String)
    ensures
        s@ == "Not in a voice channel to play in"@,
{
    String::from_str("Not in a voice channel to play in")
}

/// The reply after the bot leaves the voice channel.
pub fn left_voice_reply() -> (s: String)
    ensures
        s@ == "Left voice channel"@,
{
    String::from_str("Left voice channel")
}

/// The loading reaction: an hourglass, added while a play request works.
pub fn loading_emoji() -> (s: String)
    ensures
        s@ == "\u{23F3}"@,
{
    String::from_str("\u{23F3}")
}

/// The reaction that replaces the hourglass: a thumbs-up on success, a skull
/// on failure.
pub fn result_emoji(success: bool) -> (s: String)
    ensures
        success ==> s@ == "\u{1F44D}"@,
        !success ==> s@ == "\u{1F480}"@,
{
    if success {
        String::from_str("\u{1F44D}")
    } else {
        String::from_str("\u{1F480}")
    }
}

/// The fixed help text listing every command.
pub fn help_message() -> (s: String)
    ensures
        s@
            == "**Commands:**\n    **play [URL|Title]** - Plays (or adds to the queue) new tracks given a URL or a video title (supports youtube playlists).\n    **pause** - Pauses the current track.\n    **unpause** - Unpauses the currently paused track.\n    **stop** - Stops the current song and clears the queue.\n    **pn [URL|Title]** - Adds track to the top of the queue to be played next.\n    **next** - Plays next track.\n    **queue** - Shows the queue of tracks.\n    **goto [INDEX]** - Plays immediately the specific track of the queue (discards all previous tracks).\n    **shuffle** - Reorders the queue randomly."@,
{
    String::from_str(
        "**Commands:**\n    **play [URL|Title]** - Plays (or adds to the queue) new tracks given a URL or a video title (supports youtube playlists).\n    **pause** - Pauses the current track.\n    **unpause** - Unpauses the currently paused track.\n    **stop** - Stops the current song and clears the queue.\n    **pn [URL|Title]** - Adds track to the top of the queue to be played next.\n    **next** - Plays next track.\n    **queue** - Shows the queue of tracks.\n    **goto [INDEX]** - Plays immediately the specific track of the queue (discards all previous tracks).\n    **shuffle** - Reorders the queue randomly.",
    )
}

} // verus!
