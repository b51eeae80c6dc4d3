//! What the desktop front end is shown: a plain copy of the interface's state.
use vstd::prelude::*;
use crate::gui::cover::{base64_of, encode_base64};
use crate::tui::app::{at_root, shown_indices, shown_path, LibraryEntry, Track};
use crate::tui::keys::TuiState;
use crate::gui::runtime::{tab_name, tab_text};
use crate::text::{str_eq, views};

verus! {

/// A track as the front end sees it.
#[derive(Debug)]
pub struct TrackDto {
    pub title: String,
    pub path: String,
}

/// A library line as the front end sees it.
#[derive(Debug)]
pub enum LibraryEntryDto {
    Folder { name: String },
    Track { title: String, path: String },
}

/// The front end's view of the interface, apart from the player's figures.
#[derive(Debug)]
pub struct GuiView {
    pub tab: String,
    pub queue: Vec<TrackDto>,
    pub queue_cursor: usize,
    pub current_track_idx: usize,
    pub library_path: String,
    pub library_entries: Vec<LibraryEntryDto>,
    pub library_selected: usize,
    pub library_is_root: bool,
    pub library_filter: String,
    pub playlists: Vec<String>,
    pub playlist_tracks: Vec<TrackDto>,
    pub playlist_viewing: bool,
    pub playlist_selected: usize,
    pub status_msg: Option<String>,
    pub cover_base64: Option<String>,
}

/// The front end's copy of a track.
pub open spec fn track_dto_matches(d: TrackDto, t: Track) -> bool {
    d.title@ == t.title@ && d.path@ == t.path@
}

/// The front end's copy of a library entry.
pub open spec fn entry_dto_matches(d: LibraryEntryDto, e: LibraryEntry) -> bool {
    match (d, e) {
        (LibraryEntryDto::Folder { name }, LibraryEntry::Folder(n)) => name@ == n@,
        (LibraryEntryDto::Track { title, path }, LibraryEntry::Track(t)) => title@ == t.title@ && path@ == t.path@,
        _ => false,
    }
}

/// Copies of tracks.
pub open spec fn tracks_copied(ds: Seq<TrackDto>, ts: Seq<Track>) -> bool {
    ds.len() == ts.len() && forall|i: int| 0 <= i < ts.len() ==> track_dto_matches(#[trigger] ds[i], ts[i])
}

/// The front end's copies of tracks.
pub fn track_dtos(ts: &Vec<Track>) -> (out: Vec<TrackDto>)
    ensures
        tracks_copied(out@, ts@),
{
    let mut out: Vec<TrackDto> = Vec::new();
    let mut i: usize = 0;
    while i < ts.len()
        invariant
            i <= ts@.len(),
            out@.len() == i,
            forall|k: int| 0 <= k < i ==> track_dto_matches(#[trigger] out@[k], ts@[k]),
        decreases ts@.len() - i,
    {
        out.push(TrackDto { title: ts[i].title.clone(), path: ts[i].path.clone() });
        i += 1;
    }
    out
}

/// The library lines the front end shows: `..` first unless at the root, then the
/// entries the filter lets through.
pub open spec fn library_lines_match(out: Seq<LibraryEntryDto>, s: TuiState) -> bool {
    let is_root = at_root(s.library);
    let vis = shown_indices(s.library.entries@, s.library.filter@, s.library.entries@.len() as int);
    let off: int = if is_root { 0 } else { 1 };
    &&& out.len() == off + vis.len()
    &&& !is_root ==> (out[0] matches LibraryEntryDto::Folder { name } && name@ == ".."@)
    &&& forall|k: int| 0 <= k < vis.len() ==> entry_dto_matches(#[trigger] out[off + k], s.library.entries@[vis[k] as int])
}

/// The front end's view of the interface, given the cover picture and the path it is of
/// (none is sent when that path is empty), and the home folder.
pub open spec fn view_matches(v: GuiView, s: TuiState, cover: Option<Vec<u8>>, cover_path: Seq<char>, home: Option<Seq<char>>) -> bool {
    &&& v.tab@ == tab_text(s.active_tab)
    &&& tracks_copied(v.queue@, s.queue@)
    &&& v.queue_cursor == s.queue_cursor
    &&& v.current_track_idx == s.current_track_idx
    &&& v.library_path@ == shown_path(s.library.root_dir@, s.library.current_dir@, home)
    &&& library_lines_match(v.library_entries@, s)
    &&& v.library_selected == s.library.selected_idx
    &&& v.library_is_root == at_root(s.library)
    &&& v.library_filter@ == s.library.filter@
    &&& views(v.playlists@) == views(s.playlists.playlists@)
    &&& tracks_copied(v.playlist_tracks@, s.playlists.current_tracks@)
    &&& v.playlist_viewing == (s.playlists.current_tracks@.len() > 0)
    &&& v.playlist_selected == s.playlists.selected_idx
    &&& v.status_msg == s.status_msg
    &&& match cover {
        Some(data) => if cover_path.len() == 0 {
            v.cover_base64 is None
        } else {
            v.cover_base64 matches Some(b) && b@ == base64_of(data@)
        },
        None => v.cover_base64 is None,
    }
}

/// The front end's view of the interface.
pub fn build_snapshot(state: &TuiState, cover: &Option<Vec<u8>>, cover_path: &str) -> (v: GuiView)
    requires
        cover matches Some(data) ==> (data@.len() / 3) * 4 + 4 <= usize::MAX,
    ensures
        exists|h: Option<Seq<char>>| view_matches(v, *state, *cover, cover_path@, h),
{
    let is_root = state.library.is_at_root();
    let mut entries: Vec<LibraryEntryDto> = Vec::new();
    if !is_root {
        entries.push(LibraryEntryDto::Folder { name: String::from_str("..") });
    }
    let off: usize = if is_root { 0 } else { 1 };
    let vis = state.library.visible_entries();
    let mut k: usize = 0;
    while k < vis.len()
        invariant
            off == (if is_root { 0usize } else { 1usize }),
            is_root == at_root(state.library),
            !is_root ==> (entries@[0] matches LibraryEntryDto::Folder { name } && name@ == ".."@),
            vis@ == shown_indices(state.library.entries@, state.library.filter@, state.library.entries@.len() as int),
            forall|j: int| 0 <= j < vis@.len() ==> #[trigger] vis@[j] < state.library.entries@.len(),
            k <= vis@.len(),
            entries@.len() == off + k,
            forall|j: int| 0 <= j < k ==> entry_dto_matches(#[trigger] entries@[off + j], state.library.entries@[vis@[j] as int]),
        decreases vis@.len() - k,
    {
        let d = match &state.library.entries[vis[k]] {
            LibraryEntry::Folder(n) => LibraryEntryDto::Folder { name: n.clone() },
            LibraryEntry::Track(t) => LibraryEntryDto::Track { title: t.title.clone(), path: t.path.clone() },
        };
        entries.push(d);
        k += 1;
    }
    let cover_base64 = match cover {
        Some(data) => if cover_path.unicode_len() == 0 {
            None
        } else {
            Some(encode_base64(data.as_slice()))
        },
        None => None,
    };
    let mut playlists: Vec<String> = Vec::new();
    let mut i: usize = 0;
    while i < state.playlists.playlists.len()
        invariant
            i <= state.playlists.playlists@.len(),
            views(playlists@) == views(state.playlists.playlists@).take(i as int),
        decreases state.playlists.playlists@.len() - i,
    {
        let ghost before = views(playlists@);
        playlists.push(state.playlists.playlists[i].clone());
        assert(views(playlists@) =~= before.push(state.playlists.playlists@[i as int]@));
        assert(views(state.playlists.playlists@).take(i + 1) =~= views(state.playlists.playlists@).take(i as int).push(state.playlists.playlists@[i as int]@));
        i += 1;
    }
    assert(views(state.playlists.playlists@).take(i as int) =~= views(state.playlists.playlists@));
    let home = crate::firecore::config::home_dir();
    let v = GuiView {
        tab: String::from_str(tab_name(state.active_tab)),
        queue: track_dtos(&state.queue),
        queue_cursor: state.queue_cursor,
        current_track_idx: state.current_track_idx,
        library_path: state.library.displayed_path_in(&home),
        library_entries: entries,
        library_selected: state.library.selected_idx,
        library_is_root: is_root,
        library_filter: state.library.filter.clone(),
        playlists,
        playlist_tracks: track_dtos(&state.playlists.current_tracks),
        playlist_viewing: state.playlists.current_tracks.len() > 0,
        playlist_selected: state.playlists.selected_idx,
        status_msg: crate::tui::app::copy_opt(&state.status_msg),
        cover_base64,
    };
    assert(view_matches(v, *state, *cover, cover_path@, crate::tui::app::opt_chars(home)));
    v
}

} // verus!
