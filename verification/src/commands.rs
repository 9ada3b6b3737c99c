//! The chat command surface: the grammar of the `!`-prefixed commands, the
//! index argument of goto, and the classification of a play request's input.

use vstd::prelude::*;
use vstd::string::StrSliceExecFns;
use vstd::string::StringExecFns;

verus! {

/// `p` is a prefix of `s`.
pub open spec fn is_prefixed(s: Seq<char>, p: Seq<char>) -> bool {
    s.len() >= p.len() && s.subrange(0, p.len() as int) == p
}

/// `p` occurs somewhere in `s`.
pub open spec fn contains_seq(s: Seq<char>, p: Seq<char>) -> bool {
    exists|i: int| 0 <= i <= s.len() - p.len() && #[trigger] s.subrange(i, i + p.len() as int) == p
}

/// Character-wise string equality.
pub fn str_eq(a: &str, b: &str) -> (r: bool)
    ensures
        r == (a@ == b@),
{
    let sa = a.to_owned();
    let sb = b.to_owned();
    sa == sb
}

/// Whether `p` starts `s`.
pub fn has_prefix(s: &str, p: &str) -> (r: bool)
    ensures
        r == is_prefixed(s@, p@),
{
    let ns = s.unicode_len();
    let np = p.unicode_len();
    if ns < np {
        false
    } else {
        let head = s.substring_char(0, np);
        str_eq(head, p)
    }
}

/// Whether `p` occurs somewhere in `s`.
pub fn str_contains(s: &str, p: &str) -> (r: bool)
    ensures
        r == contains_seq(s@, p@),
{
    let ns = s.unicode_len();
    let np = p.unicode_len();
    if np > ns {
        return false;
    }
    if np == 0 {
        proof {
            assert(s@.subrange(0, 0 + p@.len() as int) =~= p@);
            assert(contains_seq(s@, p@));
        }
        return true;
    }
    let mut i: usize = 0;
    while i <= ns - np
        invariant
            0 < np <= ns,
            ns == s@.len(),
            np == p@.len(),
            0 <= i <= ns - np + 1,
            forall|j: int| 0 <= j < i ==> #[trigger] s@.subrange(j, j + p@.len() as int) != p@,
        decreases ns - i,
    {
        let w = s.substring_char(i, i + np);
        if str_eq(w, p) {
            return true;
        }
        i = i + 1;
    }
    false
}

/// One user command, as the dispatcher receives it. The play, play-next and
/// goto commands carry the rest of the line unparsed.
pub enum UserCommand {
    Play(String),
    PlayNext(String),
    Pause,
    Unpause,
    Next,
    Stop,
    ShowQueue,
    Shuffle,
    Goto(String),
    Help,
    Ping,
}

/// The ghost shape of a command: the same alternatives, with the argument as
/// a character sequence.
pub enum CommandView {
    Play(Seq<char>),
    PlayNext(Seq<char>),
    Pause,
    Unpause,
    Next,
    Stop,
    ShowQueue,
    Shuffle,
    Goto(Seq<char>),
    Help,
    Ping,
}

/// The ghost shape of a parsed command.
pub open spec fn command_view(c: UserCommand) -> CommandView {
    match c {
        UserCommand::Play(s) => CommandView::Play(s@),
        UserCommand::PlayNext(s) => CommandView::PlayNext(s@),
        UserCommand::Pause => CommandView::Pause,
        UserCommand::Unpause => CommandView::Unpause,
        UserCommand::Next => CommandView::Next,
        UserCommand::Stop => CommandView::Stop,
        UserCommand::ShowQueue => CommandView::ShowQueue,
        UserCommand::Shuffle => CommandView::Shuffle,
        UserCommand::Goto(s) => CommandView::Goto(s@),
        UserCommand::Help => CommandView::Help,
        UserCommand::Ping => CommandView::Ping,
    }
}

/// The command grammar: a `!`, the command word, and, for play, pn and goto,
/// one space and the rest of the line. Anything else is no command and is
/// ignored.
pub open spec fn spec_parse_command(s: Seq<char>) -> Option<CommandView> {
    if s == "!ping"@ {
        Some(CommandView::Ping)
    } else if s == "!pause"@ {
        Some(CommandView::Pause)
    } else if s == "!unpause"@ {
        Some(CommandView::Unpause)
    } else if s == "!next"@ {
        Some(CommandView::Next)
    } else if s == "!stop"@ {
        Some(CommandView::Stop)
    } else if s == "!queue"@ {
        Some(CommandView::ShowQueue)
    } else if s == "!shuffle"@ {
        Some(CommandView::Shuffle)
    } else if s == "!help"@ {
        Some(CommandView::Help)
    } else if is_prefixed(s, "!play "@) {
        Some(CommandView::Play(s.skip("!play "@.len() as int)))
    } else if is_prefixed(s, "!pn "@) {
        Some(CommandView::PlayNext(s.skip("!pn "@.len() as int)))
    } else if is_prefixed(s, "!goto "@) {
        Some(CommandView::Goto(s.skip("!goto "@.len() as int)))
    } else {
        None
    }
}

/// Take the rest of the line after the prefix `p`.
fn take_rest(s: &str, p: &str) -> (r: String)
    requires
        is_prefixed(s@, p@),
    ensures
        r@ == s@.skip(p@.len() as int),
{
    let ns = s.unicode_len();
    let np = p.unicode_len();
    let rest = s.substring_char(np, ns);
    proof {
        assert(rest@ =~= s@.skip(p@.len() as int));
    }
    String::from_str(rest)
}

/// Parse one chat message into a command, or nothing for a message that is
/// no (well-formed) command.
pub fn parse_command(content: &str) -> (r: Option<UserCommand>)
    ensures
        match r {
            Some(c) => spec_parse_command(content@) == Some(command_view(c)),
            None => spec_parse_command(content@) is None,
        },
{
    if str_eq(content, "!ping") {
        Some(UserCommand::Ping)
    } else if str_eq(content, "!pause") {
        Some(UserCommand::Pause)
    } else if str_eq(content, "!unpause") {
        Some(UserCommand::Unpause)
    } else if str_eq(content, "!next") {
        Some(UserCommand::Next)
    } else if str_eq(content, "!stop") {
        Some(UserCommand::Stop)
    } else if str_eq(content, "!queue") {
        Some(UserCommand::ShowQueue)
    } else if str_eq(content, "!shuffle") {
        Some(UserCommand::Shuffle)
    } else if str_eq(content, "!help") {
        Some(UserCommand::Help)
    } else if has_prefix(content, "!play ") {
        Some(UserCommand::Play(take_rest(content, "!play ")))
    } else if has_prefix(content, "!pn ") {
        Some(UserCommand::PlayNext(take_rest(content, "!pn ")))
    } else if has_prefix(content, "!goto ") {
        Some(UserCommand::Goto(take_rest(content, "!goto ")))
    } else {
        None
    }
}

/// A decimal digit.
pub open spec fn is_digit(c: char) -> bool {
    48 <= c as int <= 57
}

/// A digit's numeric value.
pub open spec fn digit_val(c: char) -> int {
    c as int - 48
}

/// Every character is a digit.
pub open spec fn all_digits(s: Seq<char>) -> bool {
    forall|i: int| 0 <= i < s.len() ==> is_digit(#[trigger] s[i])
}

/// The number a digit sequence denotes, most significant digit first.
pub open spec fn dec_value(s: Seq<char>) -> int
    decreases s.len(),
{
    if s.len() == 0 {
        0
    } else {
        dec_value(s.drop_last()) * 10 + digit_val(s.last())
    }
}

/// What the goto argument parses to: the denoted number, provided the text
/// is non-empty, all digits, and in range.
pub open spec fn spec_parse_u64(s: Seq<char>) -> Option<u64> {
    if s.len() > 0 && all_digits(s) && dec_value(s) <= u64::MAX {
        Some(dec_value(s) as u64)
    } else {
        None
    }
}

proof fn lemma_dec_value_nonneg(s: Seq<char>)
    requires
        all_digits(s),
    ensures
        dec_value(s) >= 0,
    decreases s.len(),
{
    if s.len() > 0 {
        assert(all_digits(s.drop_last()));
        lemma_dec_value_nonneg(s.drop_last());
    }
}

proof fn lemma_dec_value_monotone(s: Seq<char>, i: int, j: int)
    requires
        0 <= i <= j <= s.len(),
        all_digits(s),
    ensures
        dec_value(s.take(i)) <= dec_value(s.take(j)),
    decreases j - i,
{
    if i < j {
        lemma_dec_value_monotone(s, i, j - 1);
        assert(all_digits(s.take(j - 1)));
        lemma_dec_value_nonneg(s.take(j - 1));
        assert(s.take(j).drop_last() =~= s.take(j - 1));
        assert(is_digit(s[j - 1]));
    }
}

/// Parse the goto argument: a non-empty run of decimal digits whose value
/// fits; anything else is no index.
pub fn parse_index(s: &str) -> (r: Option<u64>)
    ensures
        r == spec_parse_u64(s@),
{
    let n = s.unicode_len();
    if n == 0 {
        return None;
    }
    let mut acc: u64 = 0;
    let mut i: usize = 0;
    while i < n
        invariant
            0 <= i <= n,
            n == s@.len(),
            all_digits(s@.take(i as int)),
            acc == dec_value(s@.take(i as int)),
        decreases n - i,
    {
        let c = s.get_char(i);
        let code = c as u32;
        if code < 48 || code > 57 {
            proof {
                assert(!is_digit(s@[i as int]));
            }
            return None;
        }
        let d = (code - 48) as u64;
        proof {
            assert(s@.take(i + 1).drop_last() =~= s@.take(i as int));
            assert(s@.take(i + 1).last() == s@[i as int]);
            assert(digit_val(s@[i as int]) == d);
        }
        let overflowed: bool;
        match acc.checked_mul(10) {
            Some(m) => {
                match m.checked_add(d) {
                    Some(v) => {
                        acc = v;
                        overflowed = false;
                    },
                    None => {
                        overflowed = true;
                    },
                }
            },
            None => {
                overflowed = true;
            },
        }
        if overflowed {
            proof {
                if all_digits(s@) {
                    assert(dec_value(s@.take(i + 1)) > u64::MAX);
                    lemma_dec_value_monotone(s@, i + 1, s@.len() as int);
                    assert(s@.take(s@.len() as int) =~= s@);
                    assert(dec_value(s@) > u64::MAX);
                }
            }
            return None;
        }
        i = i + 1;
    }
    proof {
        assert(s@.take(n as int) =~= s@);
    }
    Some(acc)
}

/// What kind of play request the user's input is: a playlist URL to expand,
/// a direct URL to resolve, or a search query.
#[derive(Clone, Copy, Debug, PartialEq, Eq, Structural)]
pub enum InputKind {
    PlaylistUrl,
    DirectUrl,
    Search,
}

/// The input starts a playlist expansion when it is a URL carrying a `list`
/// parameter; any other URL is resolved directly; anything else is searched.
pub open spec fn spec_classify_input(s: Seq<char>) -> InputKind {
    if is_prefixed(s, "http"@) {
        if contains_seq(s, "&list="@) || contains_seq(s, "?list="@) {
            InputKind::PlaylistUrl
        } else {
            InputKind::DirectUrl
        }
    } else {
        InputKind::Search
    }
}

/// Classify a play request's input.
pub fn classify_input(input: &str) -> (r: InputKind)
    ensures
        r == spec_classify_input(input@),
{
    if has_prefix(input, "http") {
        if str_contains(input, "&list=") || str_contains(input, "?list=") {
            InputKind::PlaylistUrl
        } else {
            InputKind::DirectUrl
        }
    } else {
        InputKind::Search
    }
}

/// Which resolver path a request takes. Only the play command expands
/// playlists; the play-next command resolves a single track, so for it a
/// playlist URL is just a URL.
pub open spec fn spec_request_kind(s: Seq<char>, single_track: bool) -> InputKind {
    if single_track {
        if is_prefixed(s, "http"@) {
            InputKind::DirectUrl
        } else {
            InputKind::Search
        }
    } else {
        spec_classify_input(s)
    }
}

/// Classify a request, playlist expansion allowed only for a full play.
pub fn request_kind(input: &str, single_track: bool) -> (r: InputKind)
    ensures
        r == spec_request_kind(input@, single_track),
{
    if single_track {
        if has_prefix(input, "http") {
            InputKind::DirectUrl
        } else {
            InputKind::Search
        }
    } else {
        classify_input(input)
    }
}

} // verus!
