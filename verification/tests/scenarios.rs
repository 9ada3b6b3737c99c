//! End-to-end flows over the engine: each test drives the registry and the
//! player's decisions the way the host does around the resolver and the
//! voice transport.

use duba::models::{DubaServers, Song};
use duba::player::{song_from_metadata, ControlOutcome, TransportAction};
use duba::textfmt::now_playing_message;

fn song(title: &str, url: &str) -> Song {
    Song { title: title.to_string(), url: url.to_string(), duration_secs: None }
}

#[test]
fn basic_play_on_idle_tenant() {
    let mut servers = DubaServers::new();
    // The resolver answers the play request.
    let resolved = song_from_metadata(
        Some("A".to_string()),
        Some("https://y/abc".to_string()),
        None,
    )
    .unwrap();
    servers.push_song_to_guild(1, resolved, true);
    // Idle and a track waits: a start-next round begins.
    assert!(servers.should_start(1));
    let next = servers.get_next_song(1).unwrap();
    assert_eq!(next.title, "A");
    // The transport starts the source and hands back a handle.
    servers.set_new_track_handle(11, 1).unwrap();
    assert_eq!(now_playing_message(&next), "Playing song [A](https://y/abc)");
    assert_eq!(servers.queue_len(1), 0);
    assert_eq!(servers.get_track_handle(1), Some(11));
}

#[test]
fn enqueue_while_playing_leaves_active_untouched() {
    let mut servers = DubaServers::new();
    servers.push_song_to_guild(1, song("A", "uA"), true);
    let a = servers.get_next_song(1).unwrap();
    servers.set_new_track_handle(11, 1).unwrap();
    assert_eq!(a.title, "A");

    // The search path resolves "foo bar" to track B.
    let b = song_from_metadata(Some("B".to_string()), Some("uB".to_string()), None).unwrap();
    servers.push_song_to_guild(1, b, true);
    // Already playing: no start-next round.
    assert!(!servers.should_start(1));
    assert_eq!(servers.queue_len(1), 1);
    assert_eq!(servers.get_track_handle(1), Some(11));
}

#[test]
fn pn_prepends_to_the_front() {
    let mut servers = DubaServers::new();
    servers.push_song_to_guild(1, song("B", "uB"), true);
    servers.push_song_to_guild(1, song("C", "uC"), true);
    servers.set_new_track_handle(11, 1).unwrap();
    servers.push_song_to_guild(1, song("D", "uD"), false);
    assert!(!servers.should_start(1));
    assert_eq!(servers.get_track_handle(1), Some(11));
    assert_eq!(servers.get_next_song(1).unwrap().title, "D");
    assert_eq!(servers.get_next_song(1).unwrap().title, "B");
    assert_eq!(servers.get_next_song(1).unwrap().title, "C");
}

#[test]
fn natural_end_starts_the_next_track() {
    let mut servers = DubaServers::new();
    servers.push_song_to_guild(1, song("A", "uA"), true);
    let _a = servers.get_next_song(1).unwrap();
    servers.set_new_track_handle(11, 1).unwrap();
    servers.push_song_to_guild(1, song("B", "uB"), true);

    // End-of-track fires for A: the handle is forgotten, then start-next.
    servers.remove_track_handle(1).unwrap();
    assert!(servers.should_start(1));
    let b = servers.get_next_song(1).unwrap();
    assert_eq!(b.title, "B");
    servers.set_new_track_handle(12, 1).unwrap();
    assert_eq!(servers.queue_len(1), 0);
    assert_eq!(servers.get_track_handle(1), Some(12));
}

#[test]
fn goto_then_end_of_track_plays_the_chosen_song() {
    let mut servers = DubaServers::new();
    for (t, u) in [("A", "u1"), ("B", "u2"), ("C", "u3"), ("D", "u4"), ("E", "u5")] {
        servers.push_song_to_guild(1, song(t, u), true);
    }
    servers.set_new_track_handle(10, 1).unwrap();
    match servers.goto(1, "3") {
        ControlOutcome::Transport(10, TransportAction::StopTrack) => {},
        _ => panic!("goto must stop the active track"),
    }
    assert_eq!(servers.queue_len(1), 3);
    // The stop's end-of-track round starts C.
    let c = servers.get_next_song(1).unwrap();
    assert_eq!(c.title, "C");
    servers.set_new_track_handle(13, 1).unwrap();
    assert_eq!(servers.queue_len(1), 2);
    assert_eq!(servers.get_track_handle(1), Some(13));
}

#[test]
fn playlist_play_starts_the_first_track() {
    let mut servers = DubaServers::new();
    let expanded = vec![song("T1", "v1"), song("T2", "v2"), song("T3", "v3")];
    servers.push_songs_list_to_server(1, expanded);
    assert!(servers.should_start(1));
    let t1 = servers.get_next_song(1).unwrap();
    assert_eq!(t1.title, "T1");
    servers.set_new_track_handle(21, 1).unwrap();
    assert_eq!(servers.queue_len(1), 2);
    assert_eq!(now_playing_message(&t1), "Playing song [T1](v1)");
}

#[test]
fn stop_then_play_starts_fresh() {
    let mut servers = DubaServers::new();
    servers.push_song_to_guild(1, song("A", "uA"), true);
    let _ = servers.get_next_song(1);
    servers.set_new_track_handle(11, 1).unwrap();
    servers.push_song_to_guild(1, song("B", "uB"), true);

    servers.stop(1).unwrap();
    assert_eq!(servers.queue_len(1), 0);
    assert_eq!(servers.get_track_handle(1), None);

    servers.push_song_to_guild(1, song("C", "uC"), true);
    assert!(servers.should_start(1));
    assert_eq!(servers.get_next_song(1).unwrap().title, "C");
}
