use firemusic::gui::cover::png_dimensions;
use firemusic::gui::runtime::{tab_from_str, tab_name, track_title_from_path, GuiCommand, GuiEffect};
use firemusic::gui::snapshot::{build_snapshot, LibraryEntryDto};
use firemusic::tui::app::{DirItem, LibraryState, PlaylistManager, Tab, Track};
use firemusic::tui::keys::TuiState;
use firemusic::tui::theme::base64_encode;

fn state(titles: &[&str]) -> TuiState {
    let queue: Vec<Track> = titles
        .iter()
        .map(|t| Track::new(t.to_string(), format!("/m/{}.mp3", t)))
        .collect();
    TuiState::new(queue, false, LibraryState::with_root("/m".to_string()), PlaylistManager::new())
}

#[test]
fn png_header_is_checked() {
    let mut png = vec![0u8; 24];
    png[12..16].copy_from_slice(b"IHDR");
    png[16..20].copy_from_slice(&300u32.to_be_bytes());
    png[20..24].copy_from_slice(&200u32.to_be_bytes());
    assert_eq!(png_dimensions(&png), (300, 200));
    png[12] = b'X';
    assert_eq!(png_dimensions(&png), (0, 0));
}

#[test]
fn both_base64_encoders_agree() {
    let s = state(&["a"]);
    let data: Vec<u8> = (0..=255u8).collect();
    let v = build_snapshot(&s, &Some(data.clone()), "/m/a.mp3");
    assert_eq!(v.cover_base64.as_deref(), Some(base64_encode(&data).as_str()));
    let v = build_snapshot(&s, &Some(b"hello".to_vec()), "/m/a.mp3");
    assert_eq!(v.cover_base64.as_deref(), Some("aGVsbG8="));
}

#[test]
fn tab_names_read_back() {
    for t in [Tab::Queue, Tab::Library, Tab::Playlists, Tab::Stats] {
        assert!(tab_from_str(tab_name(t)) == t);
    }
    assert!(tab_from_str("nonsense") == Tab::Queue);
}

#[test]
fn titles_from_inputs() {
    assert_eq!(track_title_from_path("https://x/y.mp3"), "https://x/y.mp3");
    assert_eq!(track_title_from_path("/music/song.flac"), "song");
}

#[test]
fn queue_commands() {
    let mut s = state(&["a", "b", "c"]);
    match s.handle_command(GuiCommand::QueuePlay(2)) {
        GuiEffect::Replace(p) => assert_eq!(p, "/m/c.mp3"),
        _ => panic!("expected play"),
    }
    assert_eq!(s.status_msg.as_deref(), Some("playing: c"));
    s.handle_command(GuiCommand::QueueRemove(2));
    assert_eq!(s.current_track_idx, 1);
    assert_eq!(s.queue_cursor, 1);
    assert_eq!(s.status_msg.as_deref(), Some("removed: c"));
    assert!(matches!(s.handle_command(GuiCommand::QueuePlay(9)), GuiEffect::Nothing));
    assert!(matches!(s.handle_command(GuiCommand::ToggleLoop), GuiEffect::SetLoop(true)));
}

#[test]
fn adding_to_an_empty_queue_plays() {
    let mut s = state(&[]);
    s.library.set_listing(&vec![DirItem { name: "x.mp3".to_string(), path: "/m/x.mp3".to_string(), is_dir: false }]);
    match s.handle_command(GuiCommand::LibraryAddSelected) {
        GuiEffect::Replace(p) => assert_eq!(p, "/m/x.mp3"),
        _ => panic!("expected play"),
    }
    match s.handle_command(GuiCommand::LibraryEnter) {
        GuiEffect::AppendPlay(p) => assert_eq!(p, "/m/x.mp3"),
        _ => panic!("expected append"),
    }
    assert_eq!(s.status_msg.as_deref(), Some("added: x"));
}

#[test]
fn track_end_in_the_front_end() {
    let mut s = state(&["a", "b"]);
    assert!(matches!(s.gui_advance(), GuiEffect::Replace(p) if p == "/m/b.mp3"));
    assert!(matches!(s.gui_advance(), GuiEffect::Nothing));
}

#[test]
fn snapshot_copies_the_state() {
    let mut s = state(&["a"]);
    s.library.current_dir = "/m/sub".to_string();
    s.library.set_listing(&vec![DirItem { name: "x.mp3".to_string(), path: "/m/sub/x.mp3".to_string(), is_dir: false }]);
    let v = build_snapshot(&s, &Some(b"Man".to_vec()), "/m/a.mp3");
    assert_eq!(v.tab, "queue");
    assert_eq!(v.queue.len(), 1);
    assert_eq!(v.queue[0].title, "a");
    assert!(!v.library_is_root);
    assert_eq!(v.library_path, "sub");
    assert!(matches!(&v.library_entries[0], LibraryEntryDto::Folder { name } if name == ".."));
    assert!(matches!(&v.library_entries[1], LibraryEntryDto::Track { title, .. } if title == "x"));
    assert_eq!(v.cover_base64.as_deref(), Some("TWFu"));
    let none = build_snapshot(&s, &Some(b"Man".to_vec()), "");
    assert!(none.cover_base64.is_none());
}

#[test]
fn base64_text_length_and_alphabet() {
    for n in 0..10usize {
        let data: Vec<u8> = (0..n as u8).map(|b| b.wrapping_mul(37)).collect();
        let t = base64_encode(&data);
        assert_eq!(t.len(), 4 * ((n + 2) / 3));
        assert!(t.is_ascii());
        assert_eq!(t.is_empty(), data.is_empty());
    }
}
