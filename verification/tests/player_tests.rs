use firemusic::firecore::eq::{band_label, eq_screen_key, next_band, prev_band, EqKeyAction, EQ_BAND_COUNT};
use firemusic::cli::{help_request, run_mode, HelpRequest, RunMode};
use firemusic::firecore::player::{
    edit_line, end_reached, eq_label, load_mode, next_eq_filter, player_key, PlayAction,
};
use firemusic::tui::keys::Key;

#[test]
fn equalizer_cycle_and_labels() {
    let mut af = String::new();
    let mut labels = Vec::new();
    for _ in 0..6 {
        af = next_eq_filter(&af).to_string();
        labels.push(eq_label(&af));
    }
    assert_eq!(labels, vec!["bass+", "treble+", "rock", "vocal", "lofi", "off"]);
    assert_eq!(af, "");
    assert_eq!(eq_label("equalizer=f=62:g=3"), "custom");
}

#[test]
fn end_of_list() {
    assert!(end_reached(2, 3));
    assert!(!end_reached(0, 3));
    assert!(end_reached(-1, 3));
    assert!(end_reached(i64::MAX, i64::MAX));
}

#[test]
fn player_keys() {
    assert!(matches!(player_key(Key::Char('q'), false), PlayAction::Quit));
    assert!(matches!(player_key(Key::Char('l'), false), PlayAction::SetLoop(true)));
    assert!(matches!(player_key(Key::Char('7'), false), PlayAction::SeekPercent(70)));
    assert!(matches!(player_key(Key::Left, false), PlayAction::Seek(-5)));
    assert!(matches!(player_key(Key::Char('k'), true), PlayAction::VolumeUp));
    assert!(matches!(player_key(Key::Tab, true), PlayAction::Nothing));
}

#[test]
fn line_editing() {
    let mut b = String::new();
    assert!(!edit_line(&mut b, Key::Char('a')));
    assert!(!edit_line(&mut b, Key::Char('b')));
    assert!(!edit_line(&mut b, Key::Backspace));
    assert_eq!(b, "a");
    assert!(edit_line(&mut b, Key::Enter));
    assert_eq!(b, "a");
    assert!(edit_line(&mut b, Key::Esc));
    assert_eq!(b, "");
}

#[test]
fn load_modes() {
    assert_eq!(load_mode(0), "replace");
    assert_eq!(load_mode(3), "append");
}

#[test]
fn command_line_modes() {
    let raw: Vec<String> = vec!["msc".to_string(), "help".to_string(), "controls".to_string()];
    assert!(matches!(help_request(&raw), HelpRequest::Topic(w) if w == vec!["controls".to_string()]));
    assert!(matches!(help_request(&vec!["msc".to_string(), "help".to_string()]), HelpRequest::General));
    assert!(matches!(help_request(&vec!["msc".to_string()]), HelpRequest::NotHelp));
    assert!(matches!(run_mode(true, Some("audio".to_string()), None), RunMode::Tui));
    assert!(matches!(run_mode(false, Some("audio".to_string()), None), RunMode::Download(m) if m == "audio"));
    assert!(matches!(run_mode(false, None, Some("".to_string())), RunMode::Search(q) if q.is_empty()));
    assert!(matches!(run_mode(false, None, None), RunMode::Play));
}

#[test]
fn equalizer_band_cursor_wraps() {
    assert_eq!(EQ_BAND_COUNT, 10);
    assert_eq!(next_band(9), 0);
    assert_eq!(prev_band(0), 9);
    assert_eq!(next_band(4), 5);
    assert_eq!(prev_band(5), 4);
    for b in 0..EQ_BAND_COUNT {
        assert_eq!(prev_band(next_band(b)), b);
        assert_eq!(next_band(prev_band(b)), b);
    }
    assert_eq!(band_label(0), "31");
    assert_eq!(band_label(5), "1k");
    assert_eq!(band_label(9), "16k");
}

#[test]
fn zero_resets_all_effects() {
    assert!(player_key(Key::Char('0'), false) == PlayAction::ResetFx);
}

#[test]
fn equalizer_screen_keys() {
    assert!(eq_screen_key(Key::Esc) == EqKeyAction::Back);
    assert!(eq_screen_key(Key::Enter) == EqKeyAction::Back);
    assert!(eq_screen_key(Key::Char('l')) == EqKeyAction::NextBand);
    assert!(eq_screen_key(Key::Left) == EqKeyAction::PrevBand);
    assert!(eq_screen_key(Key::Char('k')) == EqKeyAction::GainUp);
    assert!(eq_screen_key(Key::Down) == EqKeyAction::GainDown);
    assert!(eq_screen_key(Key::Char('r')) == EqKeyAction::Reset);
    assert!(eq_screen_key(Key::Char('s')) == EqKeyAction::Save);
    assert!(eq_screen_key(Key::Char('L')) == EqKeyAction::Load);
    assert!(eq_screen_key(Key::Char('x')) == EqKeyAction::Nothing);
}
