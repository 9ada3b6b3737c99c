use duba::commands::{
    classify_input, parse_command, parse_index, request_kind, InputKind, UserCommand,
};

#[test]
fn parse_bare_commands() {
    assert!(matches!(parse_command("!pause"), Some(UserCommand::Pause)));
    assert!(matches!(parse_command("!unpause"), Some(UserCommand::Unpause)));
    assert!(matches!(parse_command("!next"), Some(UserCommand::Next)));
    assert!(matches!(parse_command("!stop"), Some(UserCommand::Stop)));
    assert!(matches!(parse_command("!queue"), Some(UserCommand::ShowQueue)));
    assert!(matches!(parse_command("!shuffle"), Some(UserCommand::Shuffle)));
    assert!(matches!(parse_command("!help"), Some(UserCommand::Help)));
    assert!(matches!(parse_command("!ping"), Some(UserCommand::Ping)));
}

#[test]
fn parse_commands_with_arguments() {
    match parse_command("!play https://y/abc") {
        Some(UserCommand::Play(rest)) => assert_eq!(rest, "https://y/abc"),
        other => panic!("unexpected parse: {:?}", other.is_some()),
    }
    match parse_command("!pn foo bar") {
        Some(UserCommand::PlayNext(rest)) => assert_eq!(rest, "foo bar"),
        _ => panic!("pn did not parse"),
    }
    match parse_command("!goto 3") {
        Some(UserCommand::Goto(rest)) => assert_eq!(rest, "3"),
        _ => panic!("goto did not parse"),
    }
}

#[test]
fn parse_rejects_malformed() {
    assert!(parse_command("").is_none());
    assert!(parse_command("play x").is_none());
    assert!(parse_command("!play").is_none());
    assert!(parse_command("!frobnicate").is_none());
    assert!(parse_command("!pause now").is_none());
    assert!(parse_command("hello there").is_none());
}

#[test]
fn parse_index_accepts_digits() {
    assert_eq!(parse_index("0"), Some(0));
    assert_eq!(parse_index("3"), Some(3));
    assert_eq!(parse_index("42"), Some(42));
    assert_eq!(parse_index("18446744073709551615"), Some(u64::MAX));
}

#[test]
fn parse_index_rejects_bad_input() {
    assert_eq!(parse_index(""), None);
    assert_eq!(parse_index("abc"), None);
    assert_eq!(parse_index("-1"), None);
    assert_eq!(parse_index("3.5"), None);
    assert_eq!(parse_index("2x"), None);
    assert_eq!(parse_index("18446744073709551616"), None);
    assert_eq!(parse_index("99999999999999999999999"), None);
}

#[test]
fn classify_playlist_urls() {
    assert_eq!(
        classify_input("https://y/watch?v=1&list=PL123"),
        InputKind::PlaylistUrl
    );
    assert_eq!(classify_input("http://y/playlist?list=PL9"), InputKind::PlaylistUrl);
}

#[test]
fn single_track_requests_never_expand_playlists() {
    // The full play command expands a playlist URL; play-next treats the
    // same input as one track.
    let input = "https://y/watch?v=1&list=PL123";
    assert_eq!(request_kind(input, false), InputKind::PlaylistUrl);
    assert_eq!(request_kind(input, true), InputKind::DirectUrl);
    assert_eq!(request_kind("foo bar", true), InputKind::Search);
    assert_eq!(request_kind("https://y/abc", true), InputKind::DirectUrl);
}

#[test]
fn classify_direct_url_and_search() {
    assert_eq!(classify_input("https://y/abc"), InputKind::DirectUrl);
    assert_eq!(classify_input("foo bar"), InputKind::Search);
    // A list marker without the URL prefix is just a search string.
    assert_eq!(classify_input("what is ?list= for"), InputKind::Search);
}
