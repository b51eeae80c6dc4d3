//! The command-line player's decisions: what a key asks of the player, which equalizer
//! filter comes next, when a playlist has ended. Reading keys and driving mpv are the
//! caller's.
use vstd::prelude::*;
use crate::text::{contains, contains_seq, push_char, lemma_contains_at, lemma_lacks_char, lemma_contains_split};
use crate::tui::keys::Key;

verus! {

/// How a playback session ended.
#[derive(Debug, PartialEq, Eq, Structural, Clone, Copy)]
pub enum PlayLoopResult {
    Quit,
    SearchAgain,
    EndReached,
}

/// What a key asks of the player.
#[derive(Debug, PartialEq, Eq, Structural, Clone, Copy)]
pub enum PlayAction {
    Nothing,
    Quit,
    /// Search again, if the track is at its end and not looping.
    SearchIfEnded,
    /// Move to the next equalizer filter.
    CycleEq,
    /// Open the band equalizer.
    EqOverlay,
    PitchDown,
    PitchUp,
    /// Seek by this many seconds.
    Seek(i32),
    TogglePause,
    ToggleMute,
    /// Set looping on (true) or off.
    SetLoop(bool),
    /// Speed, pitch and equalizer back to their defaults.
    ResetFx,
    VolumeUp,
    VolumeDown,
    /// Seek to this percentage.
    SeekPercent(u32),
    SpeedUp,
    SpeedDown,
}

/// What a key asks of the command-line player, given whether it loops.
pub open spec fn play_action(key: Key, is_loop: bool) -> PlayAction {
    match key {
        Key::Char('q') | Key::Esc => PlayAction::Quit,
        Key::Char('s') => PlayAction::SearchIfEnded,
        Key::Char('e') => PlayAction::CycleEq,
        Key::Char('E') => PlayAction::EqOverlay,
        Key::Char(',') => PlayAction::PitchDown,
        Key::Char('.') => PlayAction::PitchUp,
        Key::Char('{') => PlayAction::Seek(-60i32),
        Key::Char('}') => PlayAction::Seek(60i32),
        Key::Char(' ') => PlayAction::TogglePause,
        Key::Char('m') => PlayAction::ToggleMute,
        Key::Char('l') => PlayAction::SetLoop(!is_loop),
        Key::Char('0') => PlayAction::ResetFx,
        Key::Right => PlayAction::Seek(5i32),
        Key::Left | Key::Char('h') => PlayAction::Seek(-5i32),
        Key::Up | Key::Char('k') => PlayAction::VolumeUp,
        Key::Down | Key::Char('j') => PlayAction::VolumeDown,
        Key::Char('+') | Key::Char('=') => PlayAction::SpeedUp,
        Key::Char('-') | Key::Char('_') => PlayAction::SpeedDown,
        Key::Char(c) => if '1' <= c && c <= '9' {
            PlayAction::SeekPercent((((c as u32) - ('0' as u32)) * 10) as u32)
        } else {
            PlayAction::Nothing
        },
        _ => PlayAction::Nothing,
    }
}

/// The seek keys come in opposite pairs, whether or not the player loops: Right moves
/// five seconds forward and Left (or `h`) five seconds back, `}` a minute forward and
/// `{` a minute back; no other key seeks five seconds either way.
pub proof fn lemma_seek_keys_opposite(is_loop: bool)
    ensures
        play_action(Key::Right, is_loop) == PlayAction::Seek(5i32),
        play_action(Key::Left, is_loop) == PlayAction::Seek(-5i32),
        play_action(Key::Char('}'), is_loop) == PlayAction::Seek(60i32),
        play_action(Key::Char('{'), is_loop) == PlayAction::Seek(-60i32),
        forall|k: Key| #[trigger] play_action(k, is_loop) == PlayAction::Seek(5i32) <==> k == Key::Right,
        forall|k: Key| #[trigger] play_action(k, is_loop) == PlayAction::Seek(-5i32)
            <==> (k == Key::Left || k == Key::Char('h')),
{
}

/// What a key asks of the command-line player.
pub fn player_key(key: Key, is_loop: bool) -> (a: PlayAction)
    ensures
        a == play_action(key, is_loop),
{
    match key {
        Key::Char('q') | Key::Esc => PlayAction::Quit,
        Key::Char('s') => PlayAction::SearchIfEnded,
        Key::Char('e') => PlayAction::CycleEq,
        Key::Char('E') => PlayAction::EqOverlay,
        Key::Char(',') => PlayAction::PitchDown,
        Key::Char('.') => PlayAction::PitchUp,
        Key::Char('{') => PlayAction::Seek(-60),
        Key::Char('}') => PlayAction::Seek(60),
        Key::Char(' ') => PlayAction::TogglePause,
        Key::Char('m') => PlayAction::ToggleMute,
        Key::Char('l') => PlayAction::SetLoop(!is_loop),
        Key::Char('0') => PlayAction::ResetFx,
        Key::Right => PlayAction::Seek(5),
        Key::Left | Key::Char('h') => PlayAction::Seek(-5),
        Key::Up | Key::Char('k') => PlayAction::VolumeUp,
        Key::Down | Key::Char('j') => PlayAction::VolumeDown,
        Key::Char('+') | Key::Char('=') => PlayAction::SpeedUp,
        Key::Char('-') | Key::Char('_') => PlayAction::SpeedDown,
        Key::Char(c) => if '1' <= c && c <= '9' {
            PlayAction::SeekPercent(digit_of(c) * 10)
        } else {
            PlayAction::Nothing
        },
        _ => PlayAction::Nothing,
    }
}

/// The value of a decimal digit.
fn digit_of(c: char) -> (d: u32)
    requires
        '0' <= c && c <= '9',
    ensures
        d == (c as u32) - ('0' as u32),
{
    match c {
        '0' => 0,
        '1' => 1,
        '2' => 2,
        '3' => 3,
        '4' => 4,
        '5' => 5,
        '6' => 6,
        '7' => 7,
        '8' => 8,
        _ => 9,
    }
}

/// The player's list has ended: the position is past its last entry or unknown.
pub fn end_reached(pos: i64, count: i64) -> (b: bool)
    ensures
        b == (pos < 0 || pos + 1 >= count),
{
    pos < 0 || (pos as i128) + 1 >= (count as i128)
}

/// The equalizer filter after `af` when `e` is pressed: off, bass, treble, both, vocal,
/// lofi, then off again.
pub open spec fn next_filter(af: Seq<char>) -> Seq<char> {
    let bass = contains_seq(af, "bass"@);
    let treble = contains_seq(af, "treble"@);
    if af.len() == 0 {
        "bass=g=10"@
    } else if bass && !treble {
        "treble=g=10"@
    } else if treble && !bass {
        "bass=g=10,treble=g=10"@
    } else if bass && treble {
        "equalizer=f=1000:width_type=h:width=200:g=10"@
    } else if contains_seq(af, "1000"@) {
        "equalizer=f=300:width_type=h:width=200:g=-10,equalizer=f=3000:width_type=h:width=200:g=-10"@
    } else {
        ""@
    }
}

/// The equalizer presets in the order `e` steps through them: off, Bass+, Treble+,
/// Rock, Vocal, Lofi.
pub open spec fn eq_cycle() -> Seq<Seq<char>> {
    seq![
        ""@,
        "bass=g=10"@,
        "treble=g=10"@,
        "bass=g=10,treble=g=10"@,
        "equalizer=f=1000:width_type=h:width=200:g=10"@,
        "equalizer=f=300:width_type=h:width=200:g=-10,equalizer=f=3000:width_type=h:width=200:g=-10"@,
    ]
}

/// The status-line names of the presets of `eq_cycle`, in the same order.
pub open spec fn eq_cycle_labels() -> Seq<Seq<char>> {
    seq!["off"@, "bass+"@, "treble+"@, "rock"@, "vocal"@, "lofi"@]
}

/// Pressing `e` steps from each preset to the next, from off through Bass+, Treble+,
/// Rock, Vocal and Lofi and back to off, and the status line names each preset so.
pub proof fn lemma_eq_cycle(i: int)
    requires
        0 <= i < 6,
    ensures
        next_filter(eq_cycle()[i]) == eq_cycle()[(i + 1) % 6],
        filter_label(eq_cycle()[i]) == eq_cycle_labels()[i],
{
    reveal_strlit("");
    reveal_strlit("bass");
    reveal_strlit("treble");
    reveal_strlit("1000");
    reveal_strlit("300");
    reveal_strlit("bass=g=10");
    reveal_strlit("treble=g=10");
    reveal_strlit("bass=g=10,treble=g=10");
    reveal_strlit("equalizer=f=1000:width_type=h:width=200:g=10");
    reveal_strlit("equalizer=f=300:width_type=h:width=200:g=-10,equalizer=f=3000:width_type=h:width=200:g=-10");
    let bass = "bass"@;
    let treble = "treble"@;
    assert(treble[0] == 't');
    assert(treble[3] == 'b');
    assert(bass[0] == 'b');
    assert(bass[1] == 'a');
    let f = eq_cycle()[i];
    if i == 1 {
        assert(f.subrange(0, 4) =~= bass);
        lemma_contains_at(f, bass, 0);
        lemma_lacks_char(f, treble, 't');
    } else if i == 2 {
        assert(f.subrange(0, 6) =~= treble);
        lemma_contains_at(f, treble, 0);
        lemma_lacks_char(f, bass, 'a');
    } else if i == 3 {
        assert(f.subrange(0, 4) =~= bass);
        lemma_contains_at(f, bass, 0);
        assert(f.subrange(10, 16) =~= treble);
        lemma_contains_at(f, treble, 10);
    } else if i == 4 {
        lemma_lacks_char(f, bass, 'b');
        lemma_lacks_char(f, treble, 'b');
        assert(f.subrange(12, 16) =~= "1000"@);
        lemma_contains_at(f, "1000"@, 12);
        assert("300"@[0] == '3');
        lemma_lacks_char(f, "300"@, '3');
    } else if i == 5 {
        lemma_lacks_char(f, bass, 'b');
        lemma_lacks_char(f, treble, 'b');
        assert(f.subrange(12, 15) =~= "300"@);
        lemma_contains_at(f, "300"@, 12);
        reveal_strlit("equalizer=f=300:width_type=h:width=200:g=");
        reveal_strlit("10,equalizer=f=3000:width_type=h:width=200:g=-10");
        reveal_strlit("10");
        reveal_strlit("equalizer=f=3000:width_type=h:width=200:g=-10");
        reveal_strlit("equalizer=f=3000:width_type=h:width=200:g=");
        let one = "1000"@;
        assert(one[0] == '1');
        assert(!one.contains('-')) by {
            assert forall|k: int| 0 <= k < one.len() implies one[k] != '-' by {}
        }
        assert(!one.contains(',')) by {
            assert forall|k: int| 0 <= k < one.len() implies one[k] != ',' by {}
        }
        let x1 = "equalizer=f=300:width_type=h:width=200:g="@;
        let r1 = "10,equalizer=f=3000:width_type=h:width=200:g=-10"@;
        let r2 = "equalizer=f=3000:width_type=h:width=200:g=-10"@;
        let x2 = "equalizer=f=3000:width_type=h:width=200:g="@;
        let ten = "10"@;
        assert(f =~= x1 + seq!['-'] + r1);
        assert(r1 =~= ten + seq![','] + r2);
        assert(r2 =~= x2 + seq!['-'] + ten);
        lemma_lacks_char(x1, one, '1');
        lemma_lacks_char(x2, one, '1');
        lemma_contains_split(x2, '-', ten, one);
        lemma_contains_split(ten, ',', r2, one);
        lemma_contains_split(x1, '-', r1, one);
    }
}

/// The equalizer filter after `af`.
pub fn next_eq_filter(af: &str) -> (out: &'static str)
    ensures
        out@ == next_filter(af@),
{
    let bass = contains(af, "bass");
    let treble = contains(af, "treble");
    if af.unicode_len() == 0 {
        "bass=g=10"
    } else if bass && !treble {
        "treble=g=10"
    } else if treble && !bass {
        "bass=g=10,treble=g=10"
    } else if bass && treble {
        "equalizer=f=1000:width_type=h:width=200:g=10"
    } else if contains(af, "1000") {
        "equalizer=f=300:width_type=h:width=200:g=-10,equalizer=f=3000:width_type=h:width=200:g=-10"
    } else {
        ""
    }
}

/// The equalizer's name as the status line shows it, read from the filter `af`.
pub open spec fn filter_label(af: Seq<char>) -> Seq<char> {
    let bass = contains_seq(af, "bass"@);
    let treble = contains_seq(af, "treble"@);
    if af.len() == 0 {
        "off"@
    } else if bass && treble {
        "rock"@
    } else if bass {
        "bass+"@
    } else if treble {
        "treble+"@
    } else if contains_seq(af, "1000"@) && !contains_seq(af, "300"@) {
        "vocal"@
    } else if contains_seq(af, "300"@) {
        "lofi"@
    } else if contains_seq(af, "equalizer"@) {
        "custom"@
    } else {
        "off"@
    }
}

/// The equalizer's name as the status line shows it.
pub fn eq_label(af: &str) -> (out: &'static str)
    ensures
        out@ == filter_label(af@),
{
    let bass = contains(af, "bass");
    let treble = contains(af, "treble");
    if af.unicode_len() == 0 {
        "off"
    } else if bass && treble {
        "rock"
    } else if bass {
        "bass+"
    } else if treble {
        "treble+"
    } else if contains(af, "1000") && !contains(af, "300") {
        "vocal"
    } else if contains(af, "300") {
        "lofi"
    } else if contains(af, "equalizer") {
        "custom"
    } else {
        "off"
    }
}

/// The mpv `loadfile` mode of the `i`-th input: the first replaces what plays, the others
/// are appended.
pub fn load_mode(i: usize) -> (m: &'static str)
    ensures
        i == 0 ==> m@ == "replace"@,
        i > 0 ==> m@ == "append"@,
{
    if i == 0 {
        "replace"
    } else {
        "append"
    }
}

/// What typing a key does to a line being read: Enter ends it, Esc empties and ends it,
/// Backspace deletes, a character is added.
pub fn edit_line(buf: &mut String, key: Key) -> (done: bool)
    ensures
        key == Key::Enter ==> done && final(buf)@ == old(buf)@,
        key == Key::Esc ==> done && final(buf)@.len() == 0,
        key == Key::Backspace ==> !done && final(buf)@ == (if old(buf)@.len() > 0 {
            old(buf)@.drop_last()
        } else {
            old(buf)@
        }),
        forall|c: char| key == Key::Char(c) ==> !done && final(buf)@ == old(buf)@.push(c),
        !(key == Key::Enter || key == Key::Esc || key == Key::Backspace || key is Char) ==> !done && final(buf)@ == old(buf)@,
{
    match key {
        Key::Enter => true,
        Key::Esc => {
            *buf = String::new();
            true
        },
        Key::Backspace => {
            let v = crate::text::chars_of(buf.as_str());
            let n = if v.len() > 0 { v.len() - 1 } else { 0 };
            let nv = crate::text::string_from(&v, 0, n);
            proof {
                if v.len() > 0 {
                    assert(v@.subrange(0, n as int) =~= v@.drop_last());
                } else {
                    assert(v@.subrange(0, 0) =~= v@);
                }
            }
            *buf = nv;
            false
        },
        Key::Char(c) => {
            push_char(buf, c);
            false
        },
        _ => false,
    }
}

} // verus!
