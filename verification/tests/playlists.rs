use duba::playlists::songs_list_from_playlist_output;

const LINE1: &str = "{\"title\":\"T1\",\"url\":\"https://y/1\",\"duration\":30}";
const LINE2: &str = "{\"title\":\"T2\",\"url\":\"https://y/2\",\"duration\":null}";
const LINE3: &str = "{\"title\":\"T3\",\"url\":\"https://y/3\"}";

#[test]
fn playlist_output_yields_tracks_in_order() {
    let stdout = format!("{}\n{}\n{}\n", LINE1, LINE2, LINE3);
    let songs = songs_list_from_playlist_output(&stdout, String::new()).unwrap();
    assert_eq!(songs.len(), 3);
    assert_eq!(songs[0].title, "T1");
    assert_eq!(songs[0].url, "https://y/1");
    assert_eq!(songs[0].duration_secs, Some(30));
    assert_eq!(songs[1].title, "T2");
    assert_eq!(songs[1].duration_secs, None);
    assert_eq!(songs[2].title, "T3");
    assert_eq!(songs[2].duration_secs, None);
}

#[test]
fn unparseable_line_is_skipped() {
    let stdout = format!("{}\nnot json at all\n{}\n", LINE1, LINE2);
    let songs = songs_list_from_playlist_output(&stdout, String::new()).unwrap();
    assert_eq!(songs.len(), 2);
    assert_eq!(songs[0].title, "T1");
    assert_eq!(songs[1].title, "T2");
}

#[test]
fn line_without_url_is_skipped() {
    let stdout = format!("{{\"title\":\"X\"}}\n{}\n{{\"title\":\"Y\",\"url\":\"\"}}\n", LINE1);
    let songs = songs_list_from_playlist_output(&stdout, String::new()).unwrap();
    assert_eq!(songs.len(), 1);
    assert_eq!(songs[0].title, "T1");
}

#[test]
fn duration_is_a_count_of_seconds() {
    let stdout = "{\"title\":\"T\",\"url\":\"u\",\"duration\":90}".to_string();
    let songs = songs_list_from_playlist_output(&stdout, String::new()).unwrap();
    assert_eq!(songs[0].duration_secs, Some(90));
}

#[test]
fn negative_duration_is_dropped() {
    let stdout = "{\"title\":\"T\",\"url\":\"u\",\"duration\":-5}".to_string();
    let songs = songs_list_from_playlist_output(&stdout, String::new()).unwrap();
    assert_eq!(songs[0].duration_secs, None);
}

#[test]
fn empty_output_returns_the_error_text() {
    let r = songs_list_from_playlist_output("", "the tool failed".to_string());
    assert_eq!(r.unwrap_err(), "the tool failed");
}

#[test]
fn all_lines_unparseable_is_an_error() {
    let r = songs_list_from_playlist_output("garbage\nmore garbage", "nothing usable".to_string());
    assert_eq!(r.unwrap_err(), "nothing usable");
}
