//! The desktop front end's commands and what they do to the interface's state.
use vstd::prelude::*;
use crate::tui::app::{
    file_stem, folder_target, moved_to, parent_target, path_stem, shown_indices, LibraryEntry,
    LibraryState, PlaylistManager, Tab, Track,
};
use crate::tui::keys::{lib_offset, lib_picked, lib_visible, says, TuiState};
use crate::text::{has_prefix, starts_with, str_eq};

verus! {

/// The tab's name in the front end.
pub open spec fn tab_text(t: Tab) -> Seq<char> {
    match t {
        Tab::Queue => "queue"@,
        Tab::Library => "library"@,
        Tab::Playlists => "playlists"@,
        Tab::Stats => "stats"@,
    }
}

/// The tab's name in the front end.
pub fn tab_name(tab: Tab) -> (out: &'static str)
    ensures
        out@ == tab_text(tab),
{
    match tab {
        Tab::Queue => "queue",
        Tab::Library => "library",
        Tab::Playlists => "playlists",
        Tab::Stats => "stats",
    }
}

/// The tab a front-end name stands for; anything unknown is the queue.
pub open spec fn tab_of_text(s: Seq<char>) -> Tab {
    if s == "library"@ {
        Tab::Library
    } else if s == "playlists"@ {
        Tab::Playlists
    } else if s == "stats"@ {
        Tab::Stats
    } else {
        Tab::Queue
    }
}

/// The tab a front-end name stands for; anything unknown is the queue.
pub fn tab_from_str(s: &str) -> (t: Tab)
    ensures
        t == tab_of_text(s@),
{
    if str_eq(s, "library") {
        Tab::Library
    } else if str_eq(s, "playlists") {
        Tab::Playlists
    } else if str_eq(s, "stats") {
        Tab::Stats
    } else {
        Tab::Queue
    }
}

/// A tab's front-end name reads back as the same tab.
pub proof fn lemma_tab_name_roundtrip(t: Tab)
    ensures
        tab_of_text(tab_text(t)) == t,
{
    reveal_strlit("queue");
    reveal_strlit("library");
    reveal_strlit("playlists");
    reveal_strlit("stats");
    assert("queue"@.len() == 5 && "library"@.len() == 7 && "playlists"@.len() == 9 && "stats"@.len() == 5);
    assert("queue"@[0] == 'q' && "stats"@[0] == 's');
}

/// The title a track gets from its input: a web address as it is; a file by its stem,
/// else the input itself.
pub open spec fn title_from_input(input: Seq<char>) -> Seq<char> {
    if has_prefix(input, "http"@) {
        input
    } else {
        match path_stem(input) {
            Some(s) => s,
            None => input,
        }
    }
}

/// The title a track gets from its input.
pub fn track_title_from_path(input: &str) -> (out: String)
    ensures
        out@ == title_from_input(input@),
{
    if starts_with(input, "http") {
        String::from_str(input)
    } else {
        match file_stem(input) {
            Some(s) => s,
            None => String::from_str(input),
        }
    }
}

/// The front end's commands (but for seeking and the volume, which are the player's).
#[derive(Debug)]
pub enum GuiCommand {
    SetTab(Tab),
    LibrarySelect(usize),
    LibraryEnter,
    LibraryBack,
    LibraryRescan,
    LibraryFilter(String),
    LibraryAddSelected,
    QueueSelect(usize),
    QueuePlay(usize),
    QueueRemove(usize),
    TogglePause,
    ToggleMute,
    ToggleLoop,
    PlaylistSelect(usize),
    PlaylistLoad,
    PlaylistBack,
    PlaylistRefresh,
    Shutdown,
}

/// What the caller must do after a command.
#[derive(Debug)]
pub enum GuiEffect {
    Nothing,
    /// Play this path in place of the current one.
    Replace(String),
    /// Append this path to the player's list and play it.
    AppendPlay(String),
    TogglePause,
    ToggleMute,
    /// Set mpv's `loop-file` to `inf` (true) or `no`.
    SetLoop(bool),
    /// Read the library's current folder again.
    Rescan,
    /// Read the library's current folder again and say so.
    RescanAndSay,
    /// Read the playlist with this name and open it.
    LoadPlaylist(String),
    /// Read the playlist folder again.
    RefreshPlaylists,
}

/// The state after a track was added: queued at the end; when it is the only one it is
/// current and played, else appended; the message says so.
pub open spec fn gui_added(old_s: TuiState, new_s: TuiState, t: Track, e: GuiEffect) -> bool {
    &&& new_s.queue@ == old_s.queue@.push(t)
    &&& says(new_s, "added: "@ + t.title@)
    &&& if old_s.queue@.len() == 0 {
        new_s.current_track_idx == 0 && new_s.queue_cursor == 0 && e == GuiEffect::Replace(t.path)
    } else {
        new_s.current_track_idx == old_s.current_track_idx && new_s.queue_cursor == old_s.queue_cursor
            && e == GuiEffect::AppendPlay(t.path)
    }
    &&& new_s == (TuiState {
        queue: new_s.queue,
        current_track_idx: new_s.current_track_idx,
        queue_cursor: new_s.queue_cursor,
        status_msg: new_s.status_msg,
        message_set: true,
        ..old_s
    })
}

impl TuiState {
    /// Adds a track from the front end.
    fn gui_add_track(&mut self, t: Track) -> (e: GuiEffect)
        ensures
            gui_added(*old(self), *final(self), t, e),
    {
        let path = t.path.clone();
        let mut m = String::from_str("added: ");
        m.append(t.title.as_str());
        self.queue.push(t);
        let e = if self.queue.len() == 1 {
            self.current_track_idx = 0;
            self.queue_cursor = 0;
            GuiEffect::Replace(path)
        } else {
            GuiEffect::AppendPlay(path)
        };
        self.set_message(m);
        e
    }

    /// The library entry the front end's selection stands on, as the keys read it.
    fn picked_entry(&self) -> (out: Option<usize>)
        ensures
            out == lib_picked(self.library),
            out matches Some(e) ==> e < self.library.entries@.len(),
    {
        let is_root = self.library.is_at_root();
        let sel = self.library.selected_idx;
        let vidx = if is_root {
            sel
        } else if sel > 0 {
            sel - 1
        } else {
            0
        };
        let visible = self.library.visible_entries();
        if vidx < visible.len() {
            Some(visible[vidx])
        } else {
            None
        }
    }

    /// Carries out a command of the front end.
    pub fn handle_command(&mut self, cmd: GuiCommand) -> (e: GuiEffect)
        ensures
            match cmd {
                GuiCommand::SetTab(t) => *final(self) == (TuiState { active_tab: t, ..*old(self) }) && e is Nothing,
                GuiCommand::LibrarySelect(i) => *final(self) == (TuiState {
                    library: LibraryState { selected_idx: i, ..old(self).library },
                    ..*old(self)
                }) && e is Nothing,
                GuiCommand::LibraryEnter => if lib_offset(old(self).library) == 1 && old(self).library.selected_idx == 0 {
                    *final(self) == (TuiState { library: final(self).library, ..*old(self) }) && match parent_target(old(self).library.root_dir@, old(self).library.current_dir@) {
                        Some(d) => moved_to(old(self).library, final(self).library, d) && e is Rescan,
                        None => final(self).library == old(self).library && e is Nothing,
                    }
                } else {
                    match lib_picked(old(self).library) {
                        None => *final(self) == *old(self) && e is Nothing,
                        Some(i) => match old(self).library.entries@[i as int] {
                            LibraryEntry::Folder(_) => *final(self) == (TuiState { library: final(self).library, ..*old(self) })
                                && moved_to(old(self).library, final(self).library,
                                    folder_target(old(self).library.current_dir@, old(self).library.entries@, i as int)->Some_0)
                                && e is Rescan,
                            LibraryEntry::Track(t) => gui_added(*old(self), *final(self), t, e),
                        },
                    }
                },
                GuiCommand::LibraryBack => *final(self) == (TuiState { library: final(self).library, ..*old(self) }) && match parent_target(old(self).library.root_dir@, old(self).library.current_dir@) {
                    Some(d) => moved_to(old(self).library, final(self).library, d) && e is Rescan,
                    None => final(self).library == old(self).library && e is Nothing,
                },
                GuiCommand::LibraryRescan => *final(self) == *old(self) && e is RescanAndSay,
                GuiCommand::LibraryFilter(f) => *final(self) == (TuiState {
                    library: LibraryState { filter: f, selected_idx: 0, ..old(self).library },
                    ..*old(self)
                }) && e is Nothing,
                GuiCommand::LibraryAddSelected => match lib_picked(old(self).library) {
                    Some(i) => match old(self).library.entries@[i as int] {
                        LibraryEntry::Track(t) => gui_added(*old(self), *final(self), t, e),
                        LibraryEntry::Folder(_) => *final(self) == *old(self) && e is Nothing,
                    },
                    None => *final(self) == *old(self) && e is Nothing,
                },
                GuiCommand::QueueSelect(i) => *final(self) == (TuiState { queue_cursor: i, ..*old(self) }) && e is Nothing,
                GuiCommand::QueuePlay(i) => if i < old(self).queue@.len() {
                    let t = old(self).queue@[i as int];
                    final(self).current_track_idx == i && final(self).queue_cursor == i
                        && says(*final(self), "playing: "@ + t.title@) && e == GuiEffect::Replace(t.path)
                        && *final(self) == (TuiState { current_track_idx: i, queue_cursor: i, status_msg: final(self).status_msg, message_set: true, ..*old(self) })
                } else {
                    *final(self) == *old(self) && e is Nothing
                },
                GuiCommand::QueueRemove(i) => if i < old(self).queue@.len() {
                    let q = old(self).queue@.remove(i as int);
                    &&& final(self).queue@ == q
                    &&& final(self).queue_cursor == (if old(self).queue_cursor >= q.len() && q.len() > 0 { (q.len() - 1) as usize } else { old(self).queue_cursor })
                    &&& final(self).current_track_idx == (if old(self).current_track_idx >= q.len() && q.len() > 0 { (q.len() - 1) as usize } else { old(self).current_track_idx })
                    &&& says(*final(self), "removed: "@ + old(self).queue@[i as int].title@)
                    &&& e is Nothing
                    &&& *final(self) == (TuiState { queue: final(self).queue, queue_cursor: final(self).queue_cursor,
                        current_track_idx: final(self).current_track_idx, status_msg: final(self).status_msg, message_set: true, ..*old(self) })
                } else {
                    *final(self) == *old(self) && e is Nothing
                },
                GuiCommand::TogglePause => *final(self) == *old(self) && e is TogglePause,
                GuiCommand::ToggleMute => *final(self) == *old(self) && e is ToggleMute,
                GuiCommand::ToggleLoop => *final(self) == (TuiState { is_loop: !old(self).is_loop, ..*old(self) })
                    && e == GuiEffect::SetLoop(!old(self).is_loop),
                GuiCommand::PlaylistSelect(i) => *final(self) == (TuiState {
                    playlists: PlaylistManager { selected_idx: i, ..old(self).playlists },
                    ..*old(self)
                }) && e is Nothing,
                GuiCommand::PlaylistLoad => if old(self).playlists.current_tracks@.len() == 0 {
                    if old(self).playlists.selected_idx < old(self).playlists.playlists@.len() {
                        *final(self) == (TuiState { playlists: PlaylistManager { selected_idx: 0, ..old(self).playlists }, ..*old(self) })
                            && e == GuiEffect::LoadPlaylist(old(self).playlists.playlists@[old(self).playlists.selected_idx as int])
                    } else {
                        *final(self) == *old(self) && e is Nothing
                    }
                } else if old(self).playlists.selected_idx < old(self).playlists.current_tracks@.len() {
                    gui_added(*old(self), *final(self), old(self).playlists.current_tracks@[old(self).playlists.selected_idx as int], e)
                } else {
                    *final(self) == *old(self) && e is Nothing
                },
                GuiCommand::PlaylistBack => final(self).playlists.current_tracks@.len() == 0 && final(self).playlists.selected_idx == 0
                    && final(self).playlists.playlists == old(self).playlists.playlists
                    && *final(self) == (TuiState { playlists: final(self).playlists, ..*old(self) }) && e is Nothing,
                GuiCommand::PlaylistRefresh => *final(self) == *old(self) && e is RefreshPlaylists,
                GuiCommand::Shutdown => *final(self) == *old(self) && e is Nothing,
            },
    {
        match cmd {
            GuiCommand::SetTab(t) => {
                self.active_tab = t;
                GuiEffect::Nothing
            },
            GuiCommand::LibrarySelect(i) => {
                self.library.selected_idx = i;
                GuiEffect::Nothing
            },
            GuiCommand::LibraryEnter => {
                let is_root = self.library.is_at_root();
                if !is_root && self.library.selected_idx == 0 {
                    if self.library.go_to_parent() {
                        GuiEffect::Rescan
                    } else {
                        GuiEffect::Nothing
                    }
                } else {
                    match self.picked_entry() {
                        Some(eidx) => {
                            let entry = self.library.entries[eidx].duplicate();
                            match entry {
                                LibraryEntry::Folder(_) => {
                                    self.library.selected_idx = eidx;
                                    self.library.enter_folder();
                                    GuiEffect::Rescan
                                },
                                LibraryEntry::Track(t) => self.gui_add_track(t),
                            }
                        },
                        None => GuiEffect::Nothing,
                    }
                }
            },
            GuiCommand::LibraryBack => {
                if self.library.go_to_parent() {
                    GuiEffect::Rescan
                } else {
                    GuiEffect::Nothing
                }
            },
            GuiCommand::LibraryRescan => GuiEffect::RescanAndSay,
            GuiCommand::LibraryFilter(f) => {
                self.library.filter = f;
                self.library.selected_idx = 0;
                GuiEffect::Nothing
            },
            GuiCommand::LibraryAddSelected => {
                match self.picked_entry() {
                    Some(eidx) => {
                        let entry = self.library.entries[eidx].duplicate();
                        match entry {
                            LibraryEntry::Track(t) => self.gui_add_track(t),
                            LibraryEntry::Folder(_) => GuiEffect::Nothing,
                        }
                    },
                    None => GuiEffect::Nothing,
                }
            },
            GuiCommand::QueueSelect(i) => {
                self.queue_cursor = i;
                GuiEffect::Nothing
            },
            GuiCommand::QueuePlay(i) => {
                if i < self.queue.len() {
                    self.current_track_idx = i;
                    self.queue_cursor = i;
                    let path = self.queue[i].path.clone();
                    let mut m = String::from_str("playing: ");
                    m.append(self.queue[i].title.as_str());
                    self.set_message(m);
                    GuiEffect::Replace(path)
                } else {
                    GuiEffect::Nothing
                }
            },
            GuiCommand::QueueRemove(i) => {
                if i < self.queue.len() {
                    let removed = self.queue.remove(i);
                    let n = self.queue.len();
                    if self.queue_cursor >= n && n > 0 {
                        self.queue_cursor = n - 1;
                    }
                    if self.current_track_idx >= n && n > 0 {
                        self.current_track_idx = n - 1;
                    }
                    let mut m = String::from_str("removed: ");
                    m.append(removed.title.as_str());
                    self.set_message(m);
                }
                GuiEffect::Nothing
            },
            GuiCommand::TogglePause => GuiEffect::TogglePause,
            GuiCommand::ToggleMute => GuiEffect::ToggleMute,
            GuiCommand::ToggleLoop => {
                self.is_loop = !self.is_loop;
                GuiEffect::SetLoop(self.is_loop)
            },
            GuiCommand::PlaylistSelect(i) => {
                self.playlists.selected_idx = i;
                GuiEffect::Nothing
            },
            GuiCommand::PlaylistLoad => {
                let sel = self.playlists.selected_idx;
                if self.playlists.current_tracks.len() == 0 {
                    if sel < self.playlists.playlists.len() {
                        let name = self.playlists.playlists[sel].clone();
                        self.playlists.selected_idx = 0;
                        GuiEffect::LoadPlaylist(name)
                    } else {
                        GuiEffect::Nothing
                    }
                } else if sel < self.playlists.current_tracks.len() {
                    let t = self.playlists.current_tracks[sel].duplicate();
                    self.gui_add_track(t)
                } else {
                    GuiEffect::Nothing
                }
            },
            GuiCommand::PlaylistBack => {
                self.playlists.current_tracks = Vec::new();
                self.playlists.selected_idx = 0;
                GuiEffect::Nothing
            },
            GuiCommand::PlaylistRefresh => GuiEffect::RefreshPlaylists,
            GuiCommand::Shutdown => GuiEffect::Nothing,
        }
    }

    /// When a track ends in the front end and the queue is not looping, the next queued
    /// track, if any, becomes current and is played, and the message says so.
    pub fn gui_advance(&mut self) -> (e: GuiEffect)
        ensures
            if !old(self).is_loop && old(self).current_track_idx + 1 < old(self).queue@.len() {
                let t = old(self).queue@[old(self).current_track_idx + 1];
                &&& final(self).current_track_idx == old(self).current_track_idx + 1
                &&& final(self).queue_cursor == old(self).current_track_idx + 1
                &&& says(*final(self), "now playing: "@ + t.title@)
                &&& e == GuiEffect::Replace(t.path)
                &&& *final(self) == (TuiState { current_track_idx: final(self).current_track_idx,
                    queue_cursor: final(self).queue_cursor, status_msg: final(self).status_msg, message_set: true, ..*old(self) })
            } else {
                *final(self) == *old(self) && e is Nothing
            },
    {
        let n = self.queue.len();
        if !self.is_loop && self.current_track_idx < n && self.current_track_idx + 1 < n {
            self.current_track_idx = self.current_track_idx + 1;
            self.queue_cursor = self.current_track_idx;
            let path = self.queue[self.current_track_idx].path.clone();
            let mut m = String::from_str("now playing: ");
            m.append(self.queue[self.current_track_idx].title.as_str());
            self.set_message(m);
            GuiEffect::Replace(path)
        } else {
            GuiEffect::Nothing
        }
    }
}

} // verus!
