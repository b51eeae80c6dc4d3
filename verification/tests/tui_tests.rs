use firemusic::tui::app::{
    abbreviate_home_in, eq_filter, eq_name, listing_entries, DirItem, Focus, LibraryEntry,
    LibraryState, PlaylistManager, Tab, Track, EQ_PRESET_COUNT,
};
use firemusic::tui::cover::{cover_fate, cover_load_target, png_dimensions, CoverFate};
use firemusic::tui::keys::{Command, InputAction, Key, Route, TuiState};
use firemusic::tui::theme::{base64_encode, centered_rect, supports_graphics_protocol};

fn track(t: &str) -> Track {
    Track::new(t.to_string(), format!("/m/{}.mp3", t))
}

fn state(n: usize) -> TuiState {
    let queue: Vec<Track> = (0..n).map(|i| track(&format!("t{}", i))).collect();
    TuiState::new(queue, false, LibraryState::with_root("/m".to_string()), PlaylistManager::new())
}

#[test]
fn tab_titles_and_focus_labels() {
    assert_eq!(Tab::Queue.title(), "Queue");
    assert_eq!(Tab::Stats.title(), "Stats");
    assert_eq!(Focus::List.label(), "list");
    assert_eq!(Focus::NowPlaying.label(), "now playing");
}

#[test]
fn equalizer_presets() {
    assert_eq!(EQ_PRESET_COUNT, 11);
    assert_eq!(eq_name(3), "rock");
    assert_eq!(eq_filter(3), "bass=g=10,treble=g=10");
    let mut s = state(0);
    for _ in 0..11 {
        s.cycle_eq();
    }
    assert_eq!(s.eq_preset, 0);
    assert!(matches!(s.cycle_eq(), Command::SetEq(1)));
    assert_eq!(s.status_msg.as_deref(), Some("EQ: bass+"));
}

#[test]
fn queue_cursor_wraps() {
    let mut s = state(3);
    s.queue_key(Key::Up);
    assert_eq!(s.queue_cursor, 2);
    s.queue_key(Key::Char('j'));
    assert_eq!(s.queue_cursor, 0);
}

#[test]
fn queue_cursor_moves_undo_each_other() {
    for start in 0..4 {
        let mut s = state(4);
        for _ in 0..start {
            s.queue_key(Key::Down);
        }
        assert_eq!(s.queue_cursor, start);
        s.queue_key(Key::Down);
        s.queue_key(Key::Up);
        assert_eq!(s.queue_cursor, start);
        s.queue_key(Key::Char('k'));
        s.queue_key(Key::Char('j'));
        assert_eq!(s.queue_cursor, start);
    }
}

#[test]
fn enter_plays_the_cursor_track() {
    let mut s = state(3);
    s.queue_key(Key::Down);
    match s.queue_key(Key::Enter) {
        Command::Play(p, t) => {
            assert_eq!(p, "/m/t1.mp3");
            assert_eq!(t, "t1");
        }
        _ => panic!("expected play"),
    }
    assert_eq!(s.current_track_idx, 1);
}

#[test]
fn removing_tracks_keeps_the_current_one() {
    let mut s = state(4);
    s.current_track_idx = 2;
    s.queue_cursor = 0;
    assert!(matches!(s.queue_key(Key::Char('d')), Command::AfterRemoval(None)));
    assert_eq!(s.current_track_idx, 1);
    assert_eq!(s.queue[1].title, "t2");
    assert_eq!(s.status_msg.as_deref(), Some("removed"));
    s.queue_cursor = 1;
    match s.queue_key(Key::Char('d')) {
        Command::AfterRemoval(Some(p)) => assert_eq!(p, "/m/t3.mp3"),
        _ => panic!("expected the next track to play"),
    }
    assert_eq!(s.queue.len(), 2);
    s.queue_cursor = 1;
    s.current_track_idx = 1;
    match s.queue_key(Key::Char('d')) {
        Command::AfterRemoval(Some(p)) => assert_eq!(p, "/m/t1.mp3"),
        _ => panic!("expected the first track to play"),
    }
    assert_eq!(s.current_track_idx, 0);
    assert_eq!(s.queue_cursor, 0);
    s.queue_key(Key::Char('d'));
    assert!(s.queue.is_empty());
    assert_eq!(s.status_msg.as_deref(), Some("queue empty"));
    assert!(matches!(s.queue_key(Key::Char('d')), Command::Nothing));
}

#[test]
fn global_keys_route() {
    let mut s = state(1);
    assert!(matches!(s.route_key(Key::Char('j')), Route::Queue));
    assert!(matches!(s.route_key(Key::Tab), Route::Handled(Command::Nothing)));
    assert_eq!(s.focus, Focus::NowPlaying);
    assert_eq!(s.status_msg.as_deref(), Some("focus: now playing"));
    assert!(matches!(s.route_key(Key::Char('j')), Route::NowPlaying));
    assert!(matches!(s.route_key(Key::F(3)), Route::Handled(Command::RefreshPlaylists)));
    assert_eq!(s.active_tab, Tab::Playlists);
    assert!(matches!(s.route_key(Key::Char('?')), Route::Handled(Command::Nothing)));
    assert!(s.show_help_popup);
    assert!(matches!(s.route_key(Key::Esc), Route::Handled(Command::Nothing)));
    assert!(!s.show_help_popup);
    assert!(matches!(s.route_key(Key::Esc), Route::Handled(Command::Quit)));
    assert!(matches!(s.route_key(Key::Char('q')), Route::Handled(Command::Quit)));
}

#[test]
fn now_playing_keys() {
    let mut s = state(1);
    assert!(matches!(s.now_playing_key(Key::Char('5')), Command::SeekPercent(50)));
    assert!(matches!(s.now_playing_key(Key::Char('{')), Command::SeekRelative(-60)));
    assert!(matches!(s.now_playing_key(Key::Char('l')), Command::SetLoop(true)));
    assert!(s.is_loop);
}

#[test]
fn prompts_edit_and_apply() {
    let mut s = state(2);
    s.active_tab = Tab::Playlists;
    s.playlist_key(Key::Char('s'));
    assert!(s.input_mode.is_some());
    for c in "mix ".chars() {
        s.route_key(Key::Char(c));
    }
    s.route_key(Key::Char('x'));
    s.route_key(Key::Backspace);
    match s.route_key(Key::Enter) {
        Route::Handled(Command::SavePlaylist(n, p)) => {
            assert_eq!(n, "mix");
            assert_eq!(p, vec!["/m/t0.mp3", "/m/t1.mp3"]);
        }
        _ => panic!("expected a save"),
    }
    assert!(s.input_mode.is_none());
    assert!(matches!(s.apply_input(InputAction::NewPlaylist, "  "), Command::Nothing));
    assert_eq!(s.status_msg.as_deref(), Some("cancelled"));
    let mut empty = state(0);
    empty.playlist_key(Key::Char('s'));
    assert_eq!(empty.status_msg.as_deref(), Some("error: queue is empty"));
}

#[test]
fn library_root_change_reports_errors() {
    let mut s = state(0);
    assert!(matches!(s.apply_input(InputAction::ChangeLibraryRoot, "a/../b"), Command::Nothing));
    assert_eq!(
        s.status_msg.as_deref(),
        Some("error: config path error: music directory must not contain '..' components")
    );
    assert!(matches!(s.apply_input(InputAction::ChangeLibraryRoot, "/"), Command::Rescan));
    assert_eq!(s.library.root_dir, "/");
    assert_eq!(s.status_msg.as_deref(), Some("library: /"));
}

fn item(name: &str, dir: bool) -> DirItem {
    DirItem { name: name.to_string(), path: format!("/m/{}", name), is_dir: dir }
}

#[test]
fn folder_listing_order() {
    let items = vec![
        item("b.MP3", false),
        item("zeta", true),
        item("A.flac", false),
        item("notes.txt", false),
        item("alpha", true),
        item("c", false),
    ];
    let entries = listing_entries(&items);
    let names: Vec<String> = entries
        .iter()
        .map(|e| match e {
            LibraryEntry::Folder(n) => format!("dir:{}", n),
            LibraryEntry::Track(t) => format!("track:{}:{}", t.title, t.path),
        })
        .collect();
    assert_eq!(
        names,
        vec!["dir:alpha", "dir:zeta", "track:A:/m/A.flac", "track:b:/m/b.MP3"]
    );
}

#[test]
fn library_filter_and_navigation() {
    let mut s = state(0);
    s.library.set_listing(&vec![item("Rock", true), item("song.mp3", false), item("other.ogg", false)]);
    s.library.filter = "SO".to_string();
    assert_eq!(s.library.visible_entries(), vec![2]);
    s.library.filter = "  ".to_string();
    assert_eq!(s.library.visible_entries(), vec![0, 1, 2]);
    assert!(matches!(s.apply_input(InputAction::FilterLibrary, " o "), Command::Nothing));
    assert_eq!(s.status_msg.as_deref(), Some("filter: 3 results"));
    s.apply_input(InputAction::FilterLibrary, "other");
    assert_eq!(s.status_msg.as_deref(), Some("filter: 1 result"));
    s.library.filter.clear();
    s.library.selected_idx = 2;
    match s.library_key(Key::Char('a')) {
        Command::Append(p, t) => {
            assert_eq!(p, "/m/song.mp3");
            assert_eq!(t, "song");
        }
        _ => panic!("expected an append"),
    }
    assert_eq!(s.queue.len(), 1);
    s.library.selected_idx = 0;
    assert!(matches!(s.library_key(Key::Enter), Command::Rescan));
    assert_eq!(s.library.current_dir, "/m/Rock");
    assert_eq!(s.library.displayed_path_in(&Some("/home/u".to_string())), "Rock");
    assert!(matches!(s.library_key(Key::Up), Command::Nothing));
    assert_eq!(s.library.selected_idx, 1);
    assert!(matches!(s.library_key(Key::Backspace), Command::Rescan));
    assert_eq!(s.library.current_dir, "/m");
    assert!(matches!(s.library_key(Key::Left), Command::Nothing));
}

#[test]
fn going_up_stops_at_the_root() {
    let mut lib = LibraryState::with_root("/a/b".to_string());
    lib.current_dir = "/x/y".to_string();
    assert!(lib.go_to_parent());
    assert_eq!(lib.current_dir, "/a/b");
    let mut lib = LibraryState::with_root("/a/b".to_string());
    lib.current_dir = "/a/b/c/d".to_string();
    assert!(lib.go_to_parent());
    assert_eq!(lib.current_dir, "/a/b/c");
}

#[test]
fn home_abbreviation() {
    let home = Some("/home/u".to_string());
    assert_eq!(abbreviate_home_in("/home/u", &home), "~");
    assert_eq!(abbreviate_home_in("/home/u/Music", &home), "~/Music");
    assert_eq!(abbreviate_home_in("/home/user2", &home), "/home/user2");
    assert_eq!(abbreviate_home_in("/x", &None), "/x");
}

#[test]
fn playlist_tab() {
    let mut s = state(0);
    s.playlists.refresh(&vec!["b.m3u".to_string(), "a.m3u".to_string(), "c.txt".to_string()]);
    assert_eq!(s.playlists.playlists, vec!["a", "b"]);
    s.playlist_key(Key::Up);
    assert_eq!(s.playlists.selected_idx, 1);
    match s.playlist_key(Key::Enter) {
        Command::LoadPlaylist(n) => assert_eq!(n, "b"),
        _ => panic!("expected a load"),
    }
    s.playlists.load_playlist(Some("/m/x.mp3\n#c\nhttp://s/stream\n".to_string()));
    assert_eq!(s.playlists.current_tracks.len(), 2);
    assert_eq!(s.playlists.current_tracks[0].title, "x");
    assert_eq!(s.playlists.total_items(), 2);
    s.playlists.selected_idx = 0;
    assert!(matches!(s.playlist_key(Key::Char('a')), Command::Append(_, _)));
    assert!(matches!(s.playlist_key(Key::Char('d')), Command::Nothing));
    assert!(matches!(s.playlist_key(Key::Backspace), Command::RefreshPlaylists));
    assert!(s.playlists.current_tracks.is_empty());
    s.playlists.load_playlist(None);
    assert!(s.playlists.current_tracks.is_empty());
}

#[test]
fn track_end_moves_on() {
    let mut s = state(2);
    match s.advance_on_end(0, 1) {
        Command::Advance(p) => assert_eq!(p, "/m/t1.mp3"),
        _ => panic!("expected advance"),
    }
    assert_eq!(s.status_msg.as_deref(), Some("now playing: t1"));
    assert!(matches!(s.advance_on_end(0, 1), Command::Nothing));
    let mut looping = state(2);
    looping.is_loop = true;
    assert!(matches!(looping.advance_on_end(0, 1), Command::Nothing));
    let mut mid = state(2);
    assert!(matches!(mid.advance_on_end(0, 2), Command::Nothing));
}

#[test]
fn cover_pictures() {
    let mut png = vec![0u8; 24];
    png[16..20].copy_from_slice(&640u32.to_be_bytes());
    png[20..24].copy_from_slice(&480u32.to_be_bytes());
    assert_eq!(png_dimensions(&png), (640, 480));
    assert_eq!(png_dimensions(&png[..20]), (0, 0));
    assert!(cover_fate(9) == CoverFate::Show);
    assert!(cover_fate(8) == CoverFate::Ignore);
    assert!(cover_fate(8 * 1024 * 1024 + 1) == CoverFate::TooLarge);
    let q = vec![track("a"), Track::new("s".to_string(), "http://x".to_string())];
    assert_eq!(cover_load_target(&q, 0, "", &None), Some("/m/a.mp3".to_string()));
    assert_eq!(cover_load_target(&q, 0, "/m/a.mp3", &None), None);
    assert_eq!(cover_load_target(&q, 0, "", &Some("/m/a.mp3".to_string())), None);
    assert_eq!(cover_load_target(&q, 1, "", &None), None);
    assert_eq!(cover_load_target(&q, 5, "", &None), None);
}

#[test]
fn base64_text() {
    assert_eq!(base64_encode(b"Man"), "TWFu");
    assert_eq!(base64_encode(b"Ma"), "TWE=");
    assert_eq!(base64_encode(b"M"), "TQ==");
    assert_eq!(base64_encode(b""), "");
    assert_eq!(base64_encode(&[0xfb, 0xff]), "+/8=");
}

#[test]
fn popups_are_centered() {
    assert_eq!(centered_rect(60, 5, 0, 0, 100, 40), (20, 17, 60, 5));
    assert_eq!(centered_rect(50, 50, 2, 3, 10, 4), (4, 3, 5, 4));
}

#[test]
fn tracks_with_equal_titles_keep_listing_order() {
    let items = vec![
        DirItem { name: "Song.mp3".to_string(), path: "/a/Song.mp3".to_string(), is_dir: false },
        DirItem { name: "alpha.ogg".to_string(), path: "/a/alpha.ogg".to_string(), is_dir: false },
        DirItem { name: "song.flac".to_string(), path: "/a/song.flac".to_string(), is_dir: false },
        DirItem { name: "SONG.wav".to_string(), path: "/a/SONG.wav".to_string(), is_dir: false },
    ];
    let paths: Vec<String> = listing_entries(&items)
        .iter()
        .map(|e| match e {
            LibraryEntry::Track(t) => t.path.clone(),
            LibraryEntry::Folder(n) => n.clone(),
        })
        .collect();
    assert_eq!(paths, vec!["/a/alpha.ogg", "/a/Song.mp3", "/a/song.flac", "/a/SONG.wav"]);
}

#[test]
fn old_messages_fade() {
    let mut s = state(1);
    assert!(!s.clear_old_message(None));
    assert!(!s.clear_old_message(Some(3_000_000_000)));
    assert!(s.status_msg.is_some());
    assert!(s.clear_old_message(Some(3_000_000_001)));
    assert!(s.status_msg.is_none());
    let mut s = state(1);
    s.start_input(InputAction::FilterLibrary, "Filter: ", String::new());
    s.set_message("kept".to_string());
    assert!(!s.clear_old_message(Some(10_000_000_000)));
    assert_eq!(s.status_msg.as_deref(), Some("kept"));
}

#[test]
fn kitty_draws_pictures() {
    assert!(supports_graphics_protocol("xterm-kitty", ""));
    assert!(supports_graphics_protocol("xterm-256color", "kitty"));
    assert!(!supports_graphics_protocol("xterm-256color", "iTerm.app"));
    assert!(!supports_graphics_protocol("", ""));
}

#[test]
fn zero_resets_effects_and_equalizer() {
    let mut s = state(2);
    s.cycle_eq();
    s.cycle_eq();
    assert_eq!(s.eq_preset, 2);
    assert!(matches!(s.now_playing_key(Key::Char('0')), Command::ResetFx));
    assert_eq!(s.eq_preset, 0);
}

#[test]
fn an_open_prompt_takes_every_key() {
    let mut s = state(1);
    s.start_input(InputAction::NewPlaylist, "name", String::new());
    assert!(matches!(s.route_key(Key::Char('q')), Route::Handled(Command::Nothing)));
    assert_eq!(s.input_mode.as_ref().unwrap().value, "q");
    assert!(matches!(s.route_key(Key::F(3)), Route::Handled(Command::Nothing)));
    assert!(matches!(s.route_key(Key::Tab), Route::Handled(Command::Nothing)));
    assert_eq!(s.input_mode.as_ref().unwrap().value, "q");
    assert!(s.active_tab == Tab::Queue);
    match s.route_key(Key::Enter) {
        Route::Handled(Command::CreatePlaylist(n)) => assert_eq!(n, "q"),
        _ => panic!("expected a new playlist"),
    }
    assert!(s.input_mode.is_none());
    s.start_input(InputAction::NewPlaylist, "name", "abc".to_string());
    assert!(matches!(s.route_key(Key::Esc), Route::Handled(Command::Nothing)));
    assert!(s.input_mode.is_none());
    assert_eq!(s.status_msg.as_deref(), Some("cancelled"));
}

#[test]
fn a_trailing_slash_is_still_the_root() {
    let mut lib = LibraryState::with_root("/m".to_string());
    lib.current_dir = "/m/".to_string();
    assert!(lib.is_at_root());
    assert!(!lib.go_to_parent());
    assert_eq!(lib.current_dir, "/m/");
    lib.current_dir = "/m/sub".to_string();
    assert!(!lib.is_at_root());
    assert!(lib.go_to_parent());
    assert_eq!(lib.current_dir, "/m");
}

#[test]
fn a_new_root_is_the_typed_folder() {
    let mut s = state(0);
    assert!(matches!(s.apply_input(InputAction::ChangeLibraryRoot, "  /  "), Command::Rescan));
    assert_eq!(s.library.root_dir, "/");
    assert_eq!(s.library.current_dir, "/");
    assert!(matches!(s.apply_input(InputAction::ChangeLibraryRoot, "../up"), Command::Nothing));
    assert_eq!(
        s.status_msg.as_deref(),
        Some("error: config path error: music directory must not contain '..' components")
    );
    assert_eq!(s.library.root_dir, "/");
}

#[test]
fn tab_and_equalizer_keys_leave_the_queue_alone() {
    let mut s = state(3);
    s.queue_cursor = 2;
    s.current_track_idx = 1;
    s.active_tab = Tab::Playlists;
    for key in [Key::F(1), Key::F(2), Key::F(3), Key::F(4), Key::Tab] {
        s.route_key(key);
        assert_eq!(s.queue.len(), 3);
        assert_eq!(s.queue_cursor, 2);
        assert_eq!(s.current_track_idx, 1);
        assert!(!s.show_help_popup);
        assert!(!s.is_loop);
    }
    s.library_key(Key::Char('e'));
    assert_eq!(s.queue.len(), 3);
    assert_eq!(s.eq_preset, 1);
    s.apply_input(InputAction::FilterLibrary, "x");
    assert_eq!(s.queue.len(), 3);
    assert_eq!(s.eq_preset, 1);
    assert!(s.active_tab == Tab::Stats);
}
