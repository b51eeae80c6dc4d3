use firemusic::firecore::store::{
    list_eq_presets, list_playlists, parse_playlist, playlist_content, playlist_file,
    preset_file, stem_names, trim_end_text_exec,
};

#[test]
fn list_stem_names_filters_and_sorts() {
    let names = vec!["beta.m3u".to_string(), "alpha.m3u".to_string(), "ignore.txt".to_string()];
    assert_eq!(stem_names(&names, ".m3u"), vec!["alpha".to_string(), "beta".to_string()]);
}

#[test]
fn playlist_roundtrip_in_temp_dir() {
    let loaded = parse_playlist("/music/a.flac\n# comment\n\n/music/b.mp3\n");
    assert_eq!(loaded, vec!["/music/a.flac", "/music/b.mp3"]);
}

#[test]
fn saved_playlist_reads_back() {
    let paths = vec!["/m/a.mp3".to_string(), "/m/b c.flac".to_string()];
    let text = playlist_content(&paths);
    assert_eq!(text, "/m/a.mp3\n/m/b c.flac\n");
    assert_eq!(parse_playlist(&text), paths);
    assert_eq!(playlist_content(&vec![]), "");
}

#[test]
fn crlf_lines_are_read() {
    assert_eq!(parse_playlist("a\r\n  \r\n#x\r\nb"), vec!["a", "b"]);
}

#[test]
fn listings_of_saved_things() {
    let entries = vec!["z.json".to_string(), "a.json".to_string(), "x.m3u".to_string(), "a.json.json".to_string()];
    assert_eq!(list_eq_presets(&entries), vec!["a", "a", "z"]);
    assert_eq!(list_playlists(&entries), vec!["x"]);
    assert_eq!(trim_end_text_exec("a.m3u.m3u", ".m3u"), "a");
}

#[test]
fn files_of_saved_things() {
    assert_eq!(playlist_file("/c/playlists", "mix"), "/c/playlists/mix.m3u");
    assert_eq!(preset_file("/c/presets/", "warm"), "/c/presets/warm.json");
}

#[test]
fn a_saved_playlist_is_listed_without_its_suffix() {
    let entries = vec!["road trip.m3u".to_string(), "notes.txt".to_string(), "a.m3u".to_string()];
    let listed = list_playlists(&entries);
    assert_eq!(listed, vec!["a", "road trip"]);
    assert!(listed.iter().all(|n| !n.ends_with(".m3u")));
    let presets = list_eq_presets(&vec!["warm.json".to_string(), "x.m3u".to_string()]);
    assert_eq!(presets, vec!["warm"]);
}
