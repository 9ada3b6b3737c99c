//! Parsing of the playlist expander's output: the external media tool
//! prints one JSON object per line; each line yields a track, and lines
//! that do not parse are skipped. The host runs the tool and hands the
//! captured output here.

use vstd::prelude::*;
use vstd::string::StrSliceExecFns;
use vstd::string::StringExecFns;

use crate::models::Song;

verus! {

/// One record of the expander's JSON output, reduced to the fields the
/// engine reads: the track's title, its URL, and an optional duration as an
/// integer count of seconds.
pub struct PlaylistSong {
    pub title: String,
    pub url: String,
    pub duration: Option<i64>,
}

/// The ghost shape of a parsed record.
pub open spec fn playlist_song_view(p: PlaylistSong) -> (Seq<char>, Seq<char>, Option<i64>) {
    (p.title@, p.url@, p.duration)
}

/// What one line of expander output parses to: the title, URL and duration
/// of its JSON object, or nothing for a line that is not such an object.
/// The result depends on the line's characters alone.
pub uninterp spec fn parsed_song_line(s: Seq<char>) -> Option<(Seq<char>, Seq<char>, Option<i64>)>;

/// Relies on serde_json::from_str::<serde_json::Value> together with
/// serde_json::Value::get, Value::as_str and Value::as_i64: parses the line
/// as one JSON value and reads its "title", "url" and "duration" fields.
/// All of them are pure functions of the line, so the outcome is named by
/// `parsed_song_line`.
#[verifier::external_body]
fn parse_song_line(line: &str) -> (r: Option<PlaylistSong>)
    ensures
        match r {
            Some(p) => parsed_song_line(line@) == Some(playlist_song_view(p)),
            None => parsed_song_line(line@) is None,
        },
{
    let v: serde_json::Value = serde_json::from_str(line).ok()?;
    let title = v.get("title")?.as_str()?.to_owned();
    let url = v.get("url")?.as_str()?.to_owned();
    let duration = match v.get("duration") {
        Some(d) => d.as_i64(),
        None => None,
    };
    Some(PlaylistSong { title, url, duration })
}

/// Text split at newlines, the way the expander's output is framed: one
/// entry per line, with a final empty entry after a trailing newline.
pub open spec fn spec_split_lines(s: Seq<char>) -> Seq<Seq<char>>
    decreases s.len(),
{
    if s.len() == 0 {
        seq![Seq::<char>::empty()]
    } else if s[0] == '\n' {
        seq![Seq::<char>::empty()] + spec_split_lines(s.drop_first())
    } else {
        let rest = spec_split_lines(s.drop_first());
        seq![seq![s[0]] + rest[0]] + rest.drop_first()
    }
}

proof fn lemma_split_nonempty(s: Seq<char>)
    ensures
        spec_split_lines(s).len() >= 1,
    decreases s.len(),
{
    if s.len() > 0 {
        lemma_split_nonempty(s.drop_first());
    }
}

proof fn lemma_split_no_nl(s: Seq<char>)
    requires
        forall|i: int| 0 <= i < s.len() ==> s[i] != '\n',
    ensures
        spec_split_lines(s) == seq![s],
    decreases s.len(),
{
    if s.len() == 0 {
        assert(s =~= Seq::<char>::empty());
        assert(spec_split_lines(s) =~= seq![s]);
    } else {
        lemma_split_no_nl(s.drop_first());
        let rest = spec_split_lines(s.drop_first());
        assert(rest == seq![s.drop_first()]);
        assert(seq![s[0]] + rest[0] =~= s);
        assert(rest.drop_first() =~= Seq::<Seq<char>>::empty());
        assert(spec_split_lines(s) =~= seq![s]);
    }
}

proof fn lemma_split_at_first_nl(s: Seq<char>, j: int)
    requires
        0 <= j < s.len(),
        s[j] == '\n',
        forall|i: int| 0 <= i < j ==> s[i] != '\n',
    ensures
        spec_split_lines(s) == seq![s.take(j)] + spec_split_lines(s.skip(j + 1)),
    decreases j,
{
    if j == 0 {
        assert(s.take(0) =~= Seq::<char>::empty());
        assert(s.skip(1) =~= s.drop_first());
        assert(spec_split_lines(s) =~= seq![s.take(0)] + spec_split_lines(s.skip(1)));
    } else {
        let t = s.drop_first();
        assert(t[j - 1] == '\n');
        assert(forall|i: int| 0 <= i < j - 1 ==> t[i] != '\n');
        lemma_split_at_first_nl(t, j - 1);
        let rest = spec_split_lines(t);
        assert(rest == seq![t.take(j - 1)] + spec_split_lines(t.skip(j)));
        lemma_split_nonempty(t.skip(j));
        assert(rest[0] == t.take(j - 1));
        assert(seq![s[0]] + t.take(j - 1) =~= s.take(j));
        assert(rest.drop_first() =~= spec_split_lines(t.skip(j)));
        assert(t.skip(j) =~= s.skip(j + 1));
        assert(spec_split_lines(s) =~= seq![s.take(j)] + spec_split_lines(s.skip(j + 1)));
    }
}

/// Split text into its lines.
fn split_lines(s: &str) -> (r: Vec<String>)
    ensures
        r.deep_view() == spec_split_lines(s@),
{
    let mut out: Vec<String> = Vec::new();
    let mut rem: &str = s;
    let ghost whole = s@;
    loop
        invariant
            whole == s@,
            out.deep_view() + spec_split_lines(rem@) =~= spec_split_lines(whole),
        decreases rem@.len(),
    {
        let n = rem.unicode_len();
        let mut j: usize = 0;
        while j < n && rem.get_char(j) != '\n'
            invariant
                0 <= j <= n,
                n == rem@.len(),
                forall|i: int| 0 <= i < j ==> rem@[i] != '\n',
            decreases n - j,
        {
            j = j + 1;
        }
        if j < n {
            let line = rem.substring_char(0, j);
            let next = rem.substring_char(j + 1, n);
            proof {
                lemma_split_at_first_nl(rem@, j as int);
                assert(line@ =~= rem@.take(j as int));
                assert(next@ =~= rem@.skip(j + 1));
            }
            let ghost pre = out.deep_view();
            out.push(String::from_str(line));
            proof {
                assert(out.deep_view() =~= pre + seq![rem@.take(j as int)]);
                assert(out.deep_view() + spec_split_lines(next@) =~= spec_split_lines(whole));
            }
            rem = next;
        } else {
            proof {
                lemma_split_no_nl(rem@);
            }
            let ghost pre = out.deep_view();
            out.push(String::from_str(rem));
            proof {
                assert(out.deep_view() =~= pre + seq![rem@]);
                assert(out.deep_view() =~= spec_split_lines(whole));
            }
            return out;
        }
    }
}

/// What one line contributes: its parsed record, kept only when the record
/// names a non-empty URL (a track must have one).
pub open spec fn spec_line_song(l: Seq<char>) -> Option<(Seq<char>, Seq<char>, Option<i64>)> {
    match parsed_song_line(l) {
        Some(p) => if p.1.len() > 0 {
            Some(p)
        } else {
            None
        },
        None => None,
    }
}

/// The records of all parseable lines, in line order.
pub open spec fn spec_songs_of_lines(lines: Seq<Seq<char>>) -> Seq<
    (Seq<char>, Seq<char>, Option<i64>),
>
    decreases lines.len(),
{
    if lines.len() == 0 {
        Seq::empty()
    } else {
        spec_songs_of_lines(lines.drop_last()) + (match spec_line_song(lines.last()) {
            Some(p) => seq![p],
            None => Seq::empty(),
        })
    }
}

/// The duration the engine keeps: the expander's integer is a count of
/// seconds; a negative count is no duration.
pub open spec fn spec_duration_secs(d: Option<i64>) -> Option<u64> {
    match d {
        Some(n) => if 0 <= n {
            Some(n as u64)
        } else {
            None
        },
        None => None,
    }
}

/// The track built from a parsed record.
pub open spec fn spec_song_matches(song: Song, p: (Seq<char>, Seq<char>, Option<i64>)) -> bool {
    &&& song.title@ == p.0
    &&& song.url@ == p.1
    &&& song.duration_secs == spec_duration_secs(p.2)
}

/// Turn the expander's captured output into the list of tracks to enqueue.
/// Every line that parses to a record with a URL yields one track, in line
/// order; the other lines are skipped. A non-empty result is required for
/// success: output in which no line yields a track — empty output included —
/// is a failure carrying the expander's error text.
pub fn songs_list_from_playlist_output(stdout: &str, stderr: String) -> (r: Result<
    Vec<Song>,
    String,
>)
    ensures
        r is Ok <==> spec_songs_of_lines(spec_split_lines(stdout@)).len() > 0,
        r matches Ok(songs) ==> {
            let parsed = spec_songs_of_lines(spec_split_lines(stdout@));
            &&& songs@.len() == parsed.len()
            &&& forall|k: int|
                0 <= k < songs@.len() ==> spec_song_matches(#[trigger] songs@[k], parsed[k])
            &&& forall|k: int| 0 <= k < songs@.len() ==> (#[trigger] songs@[k]).wf()
        },
        r matches Err(e) ==> e == stderr,
{
    let lines = split_lines(stdout);
    let ghost all_lines = spec_split_lines(stdout@);
    let mut songs: Vec<Song> = Vec::new();
    let mut i: usize = 0;
    while i < lines.len()
        invariant
            0 <= i <= lines@.len(),
            lines.deep_view() == all_lines,
            songs@.len() == spec_songs_of_lines(all_lines.take(i as int)).len(),
            forall|k: int|
                0 <= k < songs@.len() ==> spec_song_matches(
                    #[trigger] songs@[k],
                    spec_songs_of_lines(all_lines.take(i as int))[k],
                ),
            forall|k: int| 0 <= k < songs@.len() ==> (#[trigger] songs@[k]).wf(),
        decreases lines@.len() - i,
    {
        let ghost before = spec_songs_of_lines(all_lines.take(i as int));
        proof {
            assert(all_lines.take(i + 1).drop_last() =~= all_lines.take(i as int));
            assert(all_lines.take(i + 1).last() == all_lines[i as int]);
            assert(lines@[i as int]@ == all_lines[i as int]);
        }
        match parse_song_line(lines[i].as_str()) {
            Some(record) => {
                if record.url.as_str().is_empty() {
                    proof {
                        assert(spec_line_song(all_lines[i as int]) is None);
                    }
                } else {
                    let duration_secs: Option<u64> = match record.duration {
                        Some(n) => if n >= 0 {
                            Some(n as u64)
                        } else {
                            None
                        },
                        None => None,
                    };
                    let song = Song { title: record.title, url: record.url, duration_secs };
                    proof {
                        assert(spec_line_song(all_lines[i as int]) == Some(
                            playlist_song_view(record),
                        ));
                        assert(spec_song_matches(song, playlist_song_view(record)));
                    }
                    songs.push(song);
                }
            },
            None => {
                proof {
                    assert(spec_line_song(all_lines[i as int]) is None);
                }
            },
        }
        i = i + 1;
    }
    proof {
        assert(all_lines.take(lines@.len() as int) =~= all_lines);
    }
    if songs.len() == 0 {
        Err(stderr)
    } else {
        Ok(songs)
    }
}

} // verus!
