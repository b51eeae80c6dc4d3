//! Cover art in the terminal: its size, and whether a picture is shown.
use vstd::prelude::*;
use crate::gui::cover::{be_u32, from_be_bytes};
use crate::text::{has_prefix, starts_with, str_eq};
use crate::tui::app::Track;

verus! {

/// The width and height a PNG's header gives, bytes 16 to 23, big-endian, without
/// checking the chunk name; zero by zero when the data is shorter.
pub open spec fn png_header_size(data: Seq<u8>) -> (nat, nat) {
    if data.len() < 24 {
        (0, 0)
    } else {
        (be_u32(data[16], data[17], data[18], data[19]), be_u32(data[20], data[21], data[22], data[23]))
    }
}

/// The width and height of a picture from its PNG header.
pub fn png_dimensions(data: &[u8]) -> (wh: (u32, u32))
    ensures
        (wh.0 as nat, wh.1 as nat) == png_header_size(data@),
{
    if data.len() < 24 {
        return (0, 0);
    }
    let w = from_be_bytes(data[16], data[17], data[18], data[19]);
    let h = from_be_bytes(data[20], data[21], data[22], data[23]);
    (w, h)
}

/// The largest cover picture shown: 8 MiB.
pub const MAX_COVER_SIZE: usize = 8388608;

/// What becomes of a cover picture of `len` bytes.
#[derive(Debug, PartialEq, Eq, Structural, Clone, Copy)]
pub enum CoverFate {
    /// Shown.
    Show,
    /// Too large: a warning is shown instead.
    TooLarge,
    /// Too small to be a picture: ignored.
    Ignore,
}

/// What becomes of a cover picture of `len` bytes: more than 8 bytes and at most 8 MiB
/// is shown; more is refused with a warning.
pub fn cover_fate(len: usize) -> (f: CoverFate)
    ensures
        f == (if len > 8 && len <= MAX_COVER_SIZE {
            CoverFate::Show
        } else if len > MAX_COVER_SIZE {
            CoverFate::TooLarge
        } else {
            CoverFate::Ignore
        }),
{
    if len > 8 && len <= MAX_COVER_SIZE {
        CoverFate::Show
    } else if len > MAX_COVER_SIZE {
        CoverFate::TooLarge
    } else {
        CoverFate::Ignore
    }
}


/// Which track's cover is to be read: the current track's, unless it is the one shown,
/// a web stream, or the one being read already.
pub open spec fn cover_target(queue: Seq<Track>, current: int, shown: Seq<char>, loading: Option<Seq<char>>) -> Option<Seq<char>> {
    if 0 <= current < queue.len() {
        let p = queue[current].path@;
        if p == shown || has_prefix(p, "http"@) || loading == Some(p) {
            None
        } else {
            Some(p)
        }
    } else {
        None
    }
}

/// Which track's cover is to be read, if any.
pub fn cover_load_target(queue: &Vec<Track>, current: usize, shown: &str, loading: &Option<String>) -> (out: Option<String>)
    ensures
        crate::tui::app::opt_chars(out) == cover_target(queue@, current as int, shown@, crate::tui::app::opt_chars(*loading)),
{
    if current >= queue.len() {
        return None;
    }
    let p = queue[current].path.as_str();
    if str_eq(p, shown) || starts_with(p, "http") {
        return None;
    }
    match loading {
        Some(l) => if str_eq(l.as_str(), p) {
            return None;
        },
        None => {},
    }
    Some(String::from_str(p))
}

} // verus!
