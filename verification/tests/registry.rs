use duba::models::{DubaServers, Song};
use duba::registry::EngineError;

fn song(title: &str, url: &str) -> Song {
    Song { title: title.to_string(), url: url.to_string(), duration_secs: None }
}

#[test]
fn push_back_keeps_order() {
    let mut servers = DubaServers::new();
    servers.push_song_to_guild(1, song("a", "u1"), true);
    servers.push_song_to_guild(1, song("b", "u2"), true);
    let first = servers.get_next_song(1).unwrap();
    let second = servers.get_next_song(1).unwrap();
    assert_eq!(first.title, "a");
    assert_eq!(second.title, "b");
    assert!(servers.get_next_song(1).is_none());
}

#[test]
fn push_front_prepends() {
    let mut servers = DubaServers::new();
    servers.push_song_to_guild(1, song("a", "u1"), true);
    servers.push_song_to_guild(1, song("b", "u2"), false);
    let first = servers.get_next_song(1).unwrap();
    assert_eq!(first.title, "b");
}

#[test]
fn first_enqueue_creates_tenant() {
    let mut servers = DubaServers::new();
    assert_eq!(servers.queue_len(7), 0);
    assert!(servers.clear_queue(7).is_err());
    servers.push_song_to_guild(7, song("a", "u1"), true);
    assert_eq!(servers.queue_len(7), 1);
    assert!(servers.clear_queue(7).is_ok());
    assert_eq!(servers.queue_len(7), 0);
}

#[test]
fn tenants_are_independent() {
    let mut servers = DubaServers::new();
    servers.push_song_to_guild(1, song("a", "u1"), true);
    servers.push_song_to_guild(2, song("b", "u2"), true);
    assert_eq!(servers.queue_len(1), 1);
    assert_eq!(servers.queue_len(2), 1);
    let popped = servers.get_next_song(1).unwrap();
    assert_eq!(popped.title, "a");
    assert_eq!(servers.queue_len(2), 1);
}

#[test]
fn push_songs_list_appends_in_order() {
    let mut servers = DubaServers::new();
    servers.push_song_to_guild(1, song("x", "u0"), true);
    servers.push_songs_list_to_server(1, vec![song("a", "u1"), song("b", "u2")]);
    assert_eq!(servers.queue_len(1), 3);
    assert_eq!(servers.get_next_song(1).unwrap().title, "x");
    assert_eq!(servers.get_next_song(1).unwrap().title, "a");
    assert_eq!(servers.get_next_song(1).unwrap().title, "b");
}

#[test]
fn track_handle_set_and_remove() {
    let mut servers = DubaServers::new();
    assert_eq!(servers.set_new_track_handle(5, 1), Err(EngineError::GuildNotFound));
    servers.push_song_to_guild(1, song("a", "u1"), true);
    assert_eq!(servers.set_new_track_handle(5, 1), Ok(()));
    assert_eq!(servers.get_track_handle(1), Some(5));
    assert_eq!(servers.set_new_track_handle(6, 1), Ok(()));
    assert_eq!(servers.get_track_handle(1), Some(6));
    assert_eq!(servers.remove_track_handle(1), Ok(()));
    assert_eq!(servers.get_track_handle(1), None);
}

#[test]
fn drop_to_index_discards_leading_entries() {
    let mut servers = DubaServers::new();
    for (t, u) in [("a", "u1"), ("b", "u2"), ("c", "u3"), ("d", "u4"), ("e", "u5")] {
        servers.push_song_to_guild(1, song(t, u), true);
    }
    assert!(servers.drop_to_index(1, 3));
    assert_eq!(servers.queue_len(1), 3);
    assert_eq!(servers.get_next_song(1).unwrap().title, "c");
    assert_eq!(servers.get_next_song(1).unwrap().title, "d");
    assert_eq!(servers.get_next_song(1).unwrap().title, "e");
}

#[test]
fn drop_to_index_rejects_out_of_range() {
    let mut servers = DubaServers::new();
    servers.push_song_to_guild(1, song("a", "u1"), true);
    servers.push_song_to_guild(1, song("b", "u2"), true);
    assert!(!servers.drop_to_index(1, 0));
    assert!(!servers.drop_to_index(1, 3));
    assert_eq!(servers.queue_len(1), 2);
    assert!(servers.drop_to_index(1, 1));
    assert_eq!(servers.queue_len(1), 2);
}

#[test]
fn shuffle_preserves_members() {
    let mut servers = DubaServers::new();
    let names = ["a", "b", "c", "d", "e", "f", "g", "h"];
    for n in names {
        servers.push_song_to_guild(1, song(n, "u"), true);
    }
    servers.set_new_track_handle(9, 1).unwrap();
    assert_eq!(servers.shuffle_queue(1), Ok(()));
    assert_eq!(servers.get_track_handle(1), Some(9));
    let mut seen = Vec::new();
    while let Some(s) = servers.get_next_song(1) {
        seen.push(s.title);
    }
    seen.sort();
    let mut expected: Vec<String> = names.iter().map(|n| n.to_string()).collect();
    expected.sort();
    assert_eq!(seen, expected);
}

#[test]
fn shuffle_without_tenant_fails() {
    let mut servers = DubaServers::new();
    assert_eq!(servers.shuffle_queue(1), Err(EngineError::GuildNotFound));
}
