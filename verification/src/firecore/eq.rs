//! The ten-band equalizer's band cursor and what its screen's keys ask for. The gains
//! themselves are floating-point values and are kept by the caller.
use vstd::prelude::*;
use crate::tui::keys::Key;

verus! {

/// How many bands the equalizer has.
pub const EQ_BAND_COUNT: usize = 10;

/// The band after `b` when moving right: the next, wrapping to the first.
pub open spec fn band_right(b: int) -> int {
    (b + 1) % (EQ_BAND_COUNT as int)
}

/// The band after `b` when moving left: the previous, wrapping to the last.
pub open spec fn band_left(b: int) -> int {
    if b == 0 {
        EQ_BAND_COUNT - 1
    } else {
        b - 1
    }
}

/// The band selected after moving right from band `b`.
pub fn next_band(b: usize) -> (out: usize)
    requires
        b < EQ_BAND_COUNT,
    ensures
        out == band_right(b as int),
{
    (b + 1) % EQ_BAND_COUNT
}

/// The band selected after moving left from band `b`.
pub fn prev_band(b: usize) -> (out: usize)
    requires
        b < EQ_BAND_COUNT,
    ensures
        out == band_left(b as int),
{
    if b == 0 {
        EQ_BAND_COUNT - 1
    } else {
        b - 1
    }
}

/// What a key asks of the equalizer screen.
#[derive(Debug, PartialEq, Eq, Structural, Clone, Copy)]
pub enum EqKeyAction {
    /// Apply the bands and leave the screen.
    Back,
    NextBand,
    PrevBand,
    /// Raise the selected band's gain by one step and apply.
    GainUp,
    /// Lower the selected band's gain by one step and apply.
    GainDown,
    /// Flatten every band and apply.
    Reset,
    /// Ask for a name and save the bands as a preset.
    Save,
    /// Offer the saved presets and load the one picked.
    Load,
    Nothing,
}

/// What a key asks of the equalizer screen: Esc or Enter goes back; Right or `l` and
/// Left or `h` move between bands; Up or `k` and Down or `j` change the gain; `r`
/// resets, `s` saves and `L` loads a preset.
pub open spec fn eq_key_action(key: Key) -> EqKeyAction {
    match key {
        Key::Esc | Key::Enter => EqKeyAction::Back,
        Key::Right | Key::Char('l') => EqKeyAction::NextBand,
        Key::Left | Key::Char('h') => EqKeyAction::PrevBand,
        Key::Up | Key::Char('k') => EqKeyAction::GainUp,
        Key::Down | Key::Char('j') => EqKeyAction::GainDown,
        Key::Char('r') => EqKeyAction::Reset,
        Key::Char('s') => EqKeyAction::Save,
        Key::Char('L') => EqKeyAction::Load,
        _ => EqKeyAction::Nothing,
    }
}

/// What a key asks of the equalizer screen.
pub fn eq_screen_key(key: Key) -> (a: EqKeyAction)
    ensures
        a == eq_key_action(key),
{
    match key {
        Key::Esc | Key::Enter => EqKeyAction::Back,
        Key::Right | Key::Char('l') => EqKeyAction::NextBand,
        Key::Left | Key::Char('h') => EqKeyAction::PrevBand,
        Key::Up | Key::Char('k') => EqKeyAction::GainUp,
        Key::Down | Key::Char('j') => EqKeyAction::GainDown,
        Key::Char('r') => EqKeyAction::Reset,
        Key::Char('s') => EqKeyAction::Save,
        Key::Char('L') => EqKeyAction::Load,
        _ => EqKeyAction::Nothing,
    }
}

/// The band labels, lowest frequency first.
pub open spec fn band_labels() -> Seq<Seq<char>> {
    seq!["31"@, "62"@, "125"@, "250"@, "500"@, "1k"@, "2k"@, "4k"@, "8k"@, "16k"@]
}

/// The label of band `b`, as the equalizer screen shows it.
pub fn band_label(b: usize) -> (out: &'static str)
    requires
        b < EQ_BAND_COUNT,
    ensures
        out@ == band_labels()[b as int],
{
    proof {
        reveal_strlit("31");
        reveal_strlit("62");
        reveal_strlit("125");
        reveal_strlit("250");
        reveal_strlit("500");
        reveal_strlit("1k");
        reveal_strlit("2k");
        reveal_strlit("4k");
        reveal_strlit("8k");
        reveal_strlit("16k");
    }
    match b {
        0 => "31",
        1 => "62",
        2 => "125",
        3 => "250",
        4 => "500",
        5 => "1k",
        6 => "2k",
        7 => "4k",
        8 => "8k",
        _ => "16k",
    }
}

/// Moving the band cursor right then left, or left then right, comes back to the band
/// it started on, and either move stays on one of the ten bands.
pub proof fn lemma_band_moves_inverse(b: int)
    requires
        0 <= b < EQ_BAND_COUNT,
    ensures
        0 <= band_right(b) < EQ_BAND_COUNT,
        0 <= band_left(b) < EQ_BAND_COUNT,
        band_left(band_right(b)) == b,
        band_right(band_left(b)) == b,
{
}

} // verus!
