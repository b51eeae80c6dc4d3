//! What the interface's keys do to its state, and what they ask of the player.
use vstd::prelude::*;
use crate::firecore::config::{music_verdict, resolve_music_dir};
use crate::firecore::paths::{finding_ok, DiskFinding};
use crate::firecore::error::Error;
use crate::tui::app::{
    at_root, eq_filter, eq_name, eq_names, folder_target, moved_to, parent_target, shown_indices, Focus,
    LibraryEntry, LibraryState, PlaylistManager, Tab, Track, EQ_PRESET_COUNT,
};
use crate::text::{append_decimal, decimal, has_dotdot_component, str_eq, trim, trim_string, views};

verus! {

/// The keys the interface reads.
#[derive(Debug, PartialEq, Eq, Structural, Clone, Copy)]
pub enum Key {
    Char(char),
    F(u8),
    Up,
    Down,
    Left,
    Right,
    Enter,
    Esc,
    Tab,
    Backspace,
    Other,
}

/// What a text prompt is for.
#[derive(Debug, PartialEq, Eq, Structural, Clone, Copy)]
pub enum InputAction {
    ChangeLibraryRoot,
    NewPlaylist,
    SavePlaylist,
    FilterLibrary,
}

/// A text prompt being typed into.
#[derive(Debug)]
pub struct InputMode {
    pub action: InputAction,
    pub prompt: String,
    pub value: String,
}

/// What the caller must do after a key: talk to the player, read or write files.
#[derive(Debug)]
pub enum Command {
    Nothing,
    Quit,
    TogglePause,
    ToggleMute,
    /// Set mpv's `loop-file` to `inf` (true) or `no`.
    SetLoop(bool),
    PitchDown,
    PitchUp,
    /// Seek by this many seconds.
    SeekRelative(i32),
    /// Seek to this percentage of the track.
    SeekPercent(u32),
    VolumeUp,
    VolumeDown,
    /// Speed, pitch and equalizer back to their defaults.
    ResetFx,
    SpeedUp,
    SpeedDown,
    /// Apply this equalizer preset's filter.
    SetEq(usize),
    /// Drop the cover art, then play this path (title given) in place of the current one.
    Play(String, String),
    /// Drop the cover art, then play this path after a removal (when `Some`).
    AfterRemoval(Option<String>),
    /// Append this path (title given) to the player's playlist and play it.
    Append(String, String),
    /// Read the playlist folder again.
    RefreshPlaylists,
    /// Read the playlist with this name and open it.
    LoadPlaylist(String),
    /// Delete the playlist with this name.
    DeletePlaylist(String),
    /// Read the library's current folder again.
    Rescan,
    /// Read the library's current folder again, showing progress.
    ScanWithProgress,
    /// Create an empty playlist with this name.
    CreatePlaylist(String),
    /// Save a playlist with this name listing these paths.
    SavePlaylist(String, Vec<String>),
    /// The track ended: play this path next (the message is already set).
    Advance(String),
}

/// Where a key goes after the keys that act everywhere.
#[derive(Debug)]
pub enum Route {
    /// Handled; the caller does this.
    Handled(Command),
    /// For the player controls.
    NowPlaying,
    /// For the queue list.
    Queue,
    /// For the library list.
    Library,
    /// For the playlist list.
    Playlists,
    /// Nothing takes it.
    Ignored,
}

/// The interface's state, apart from what the player reports.
#[derive(Debug)]
pub struct TuiState {
    pub queue: Vec<Track>,
    pub current_track_idx: usize,
    pub queue_cursor: usize,
    pub active_tab: Tab,
    pub focus: Focus,
    pub library: LibraryState,
    pub playlists: PlaylistManager,
    pub eq_preset: usize,
    pub is_loop: bool,
    pub show_help_popup: bool,
    pub input_mode: Option<InputMode>,
    pub status_msg: Option<String>,
    /// Set whenever a message is shown, for the caller to time it.
    pub message_set: bool,
}

/// The message is `msg`, freshly set.
pub open spec fn says(s: TuiState, msg: Seq<char>) -> bool {
    s.status_msg matches Some(m) && m@ == msg && s.message_set
}

impl TuiState {
    /// The queue's cursor and current track are on tracks (both 0 when it is empty),
    /// and the equalizer preset is one of the presets.
    pub open spec fn wf(&self) -> bool {
        &&& self.queue@.len() == 0 ==> self.queue_cursor == 0 && self.current_track_idx == 0
        &&& self.queue@.len() > 0 ==> self.queue_cursor < self.queue@.len() && self.current_track_idx < self.queue@.len()
        &&& self.eq_preset < EQ_PRESET_COUNT
    }

    /// A fresh interface over `library`, with `queue` queued and its first track current.
    pub fn new(queue: Vec<Track>, is_loop: bool, library: LibraryState, playlists: PlaylistManager) -> (s: TuiState)
        ensures
            s.wf(),
            s.queue == queue,
            s.current_track_idx == 0,
            s.queue_cursor == 0,
            s.active_tab == Tab::Queue,
            s.focus == Focus::List,
            s.eq_preset == 0,
            s.is_loop == is_loop,
            !s.show_help_popup,
            s.input_mode is None,
            says(s, "F1-F4 tabs  Tab focus  ? help  q quit"@),
    {
        TuiState {
            queue,
            current_track_idx: 0,
            queue_cursor: 0,
            active_tab: Tab::Queue,
            focus: Focus::List,
            library,
            playlists,
            eq_preset: 0,
            is_loop,
            show_help_popup: false,
            input_mode: None,
            status_msg: Some(String::from_str("F1-F4 tabs  Tab focus  ? help  q quit")),
            message_set: true,
        }
    }

    /// Shows a message.
    pub fn set_message(&mut self, msg: String)
        ensures
            final(self).status_msg == Some(msg),
            final(self).message_set,
            *final(self) == (TuiState { status_msg: Some(msg), message_set: true, ..*old(self) }),
    {
        self.status_msg = Some(msg);
        self.message_set = true;
    }

    /// Opens a text prompt; the message is cleared.
    pub fn start_input(&mut self, action: InputAction, prompt: &str, value: String)
        ensures
            final(self).input_mode matches Some(m) && m.action == action && m.prompt@ == prompt@ && m.value == value,
            final(self).status_msg is None,
            *final(self) == (TuiState { input_mode: final(self).input_mode, status_msg: None, ..*old(self) }),
    {
        self.input_mode = Some(InputMode { action, prompt: String::from_str(prompt), value });
        self.status_msg = None;
    }

    /// Hides the message once it has been shown for more than three seconds, given how
    /// long ago (in nanoseconds) it was shown, if it was; nothing is hidden while a
    /// prompt is open. Says whether the message was hidden.
    pub fn clear_old_message(&mut self, shown_for_nanos: Option<u128>) -> (cleared: bool)
        ensures
            cleared == (old(self).input_mode is None && shown_for_nanos is Some && shown_for_nanos->Some_0 > 3_000_000_000),
            cleared ==> *final(self) == (TuiState { status_msg: None, ..*old(self) }),
            !cleared ==> *final(self) == *old(self),
    {
        if self.input_mode.is_some() {
            return false;
        }
        match shown_for_nanos {
            Some(t) => {
                if t > 3_000_000_000 {
                    self.status_msg = None;
                    true
                } else {
                    false
                }
            },
            None => false,
        }
    }

    /// Moves to the next equalizer preset, wrapping round, and says its name.
    pub fn cycle_eq(&mut self) -> (cmd: Command)
        requires
            old(self).wf(),
        ensures
            final(self).wf(),
            eq_cycled(*old(self), *final(self), cmd),
    {
        self.eq_preset = (self.eq_preset + 1) % EQ_PRESET_COUNT;
        let mut m = String::from_str("EQ: ");
        m.append(eq_name(self.eq_preset));
        self.set_message(m);
        Command::SetEq(self.eq_preset)
    }
}


/// The queue position after moving the cursor up: the line above, wrapping to the last.
pub open spec fn cursor_up(c: nat, n: nat) -> nat {
    if c > 0 {
        (c - 1) as nat
    } else if n > 0 {
        (n - 1) as nat
    } else {
        c
    }
}

/// The queue position after moving the cursor down: the line below, wrapping to the first.
pub open spec fn cursor_down(c: nat, n: nat) -> nat {
    if c + 1 < n {
        c + 1
    } else {
        0
    }
}

/// The current track's new position after the track at `idx` is removed from a queue
/// of `n`: one less when it was after `idx`; the first track when it was last.
pub open spec fn current_after_removal(cur: nat, idx: nat, n: nat) -> nat {
    let c = if idx < cur {
        (cur - 1) as nat
    } else {
        cur
    };
    if n - 1 == 0 {
        0
    } else if c >= n - 1 {
        0
    } else {
        c
    }
}

/// The cursor after the track at `idx` is removed from a queue of `n`: unchanged, or
/// the last line when it fell off the end.
pub open spec fn cursor_after_removal(idx: nat, n: nat) -> nat {
    if n - 1 == 0 {
        0
    } else if idx >= n - 1 {
        (n - 2) as nat
    } else {
        idx
    }
}

impl TuiState {
    /// Answers a key in the queue list.
    pub fn queue_key(&mut self, key: Key) -> (cmd: Command)
        requires
            old(self).wf(),
        ensures
            final(self).wf(),
            (key == Key::Up || key == Key::Char('k')) ==> *final(self) == (TuiState {
                queue_cursor: cursor_up(old(self).queue_cursor as nat, old(self).queue@.len() as nat) as usize,
                ..*old(self)
            }) && cmd is Nothing,
            (key == Key::Down || key == Key::Char('j')) ==> *final(self) == (TuiState {
                queue_cursor: cursor_down(old(self).queue_cursor as nat, old(self).queue@.len() as nat) as usize,
                ..*old(self)
            }) && cmd is Nothing,
            key == Key::Enter ==> if old(self).queue@.len() > 0 {
                let t = old(self).queue@[old(self).queue_cursor as int];
                *final(self) == (TuiState { current_track_idx: old(self).queue_cursor, ..*old(self) })
                    && cmd == Command::Play(t.path, t.title)
            } else {
                *final(self) == *old(self) && cmd is Nothing
            },
            key == Key::Char('d') ==> if old(self).queue@.len() == 0 {
                *final(self) == *old(self) && cmd is Nothing
            } else {
                let idx = old(self).queue_cursor as nat;
                let n = old(self).queue@.len() as nat;
                &&& final(self).queue@ == old(self).queue@.remove(idx as int)
                &&& final(self).current_track_idx == current_after_removal(old(self).current_track_idx as nat, idx, n)
                &&& final(self).queue_cursor == cursor_after_removal(idx, n)
                &&& (n == 1 ==> says(*final(self), "queue empty"@) && cmd == Command::AfterRemoval(None))
                &&& (n > 1 && idx != old(self).current_track_idx ==> says(*final(self), "removed"@) && cmd == Command::AfterRemoval(None))
                &&& (n > 1 && idx == old(self).current_track_idx ==> cmd == Command::AfterRemoval(
                    Some(final(self).queue@[final(self).current_track_idx as int].path)))
                &&& *final(self) == (TuiState {
                    queue: final(self).queue,
                    current_track_idx: final(self).current_track_idx,
                    queue_cursor: final(self).queue_cursor,
                    status_msg: final(self).status_msg,
                    message_set: final(self).message_set,
                    ..*old(self)
                })
            },
            key == Key::Char(' ') ==> *final(self) == *old(self) && cmd is TogglePause,
            key == Key::Char('m') ==> *final(self) == *old(self) && cmd is ToggleMute,
            key == Key::Char('l') ==> *final(self) == (TuiState { is_loop: !old(self).is_loop, ..*old(self) })
                && cmd == Command::SetLoop(!old(self).is_loop),
            key == Key::Char('e') ==> eq_cycled(*old(self), *final(self), cmd),
            !(key == Key::Up || key == Key::Char('k') || key == Key::Down || key == Key::Char('j')
                || key == Key::Enter || key == Key::Char('d') || key == Key::Char(' ')
                || key == Key::Char('m') || key == Key::Char('l') || key == Key::Char('e'))
                ==> *final(self) == *old(self) && cmd is Nothing,
    {
        let n = self.queue.len();
        if key == Key::Up || key == Key::Char('k') {
            if self.queue_cursor > 0 {
                self.queue_cursor = self.queue_cursor - 1;
            } else if n > 0 {
                self.queue_cursor = n - 1;
            }
            Command::Nothing
        } else if key == Key::Down || key == Key::Char('j') {
            if self.queue_cursor + 1 < n {
                self.queue_cursor = self.queue_cursor + 1;
            } else {
                self.queue_cursor = 0;
            }
            Command::Nothing
        } else if key == Key::Enter {
            if n > 0 {
                let path = self.queue[self.queue_cursor].path.clone();
                let title = self.queue[self.queue_cursor].title.clone();
                self.current_track_idx = self.queue_cursor;
                Command::Play(path, title)
            } else {
                Command::Nothing
            }
        } else if key == Key::Char('d') {
            if n == 0 {
                return Command::Nothing;
            }
            let idx = self.queue_cursor;
            let was_playing = idx == self.current_track_idx;
            if idx < self.current_track_idx {
                self.current_track_idx = self.current_track_idx - 1;
            }
            self.queue.remove(idx);
            if self.queue.len() == 0 {
                self.current_track_idx = 0;
                self.queue_cursor = 0;
                self.set_message(String::from_str("queue empty"));
                return Command::AfterRemoval(None);
            }
            if self.queue_cursor >= self.queue.len() {
                self.queue_cursor = self.queue.len() - 1;
            }
            if self.current_track_idx >= self.queue.len() {
                self.current_track_idx = 0;
            }
            if was_playing {
                Command::AfterRemoval(Some(self.queue[self.current_track_idx].path.clone()))
            } else {
                self.set_message(String::from_str("removed"));
                Command::AfterRemoval(None)
            }
        } else if key == Key::Char(' ') {
            Command::TogglePause
        } else if key == Key::Char('m') {
            Command::ToggleMute
        } else if key == Key::Char('l') {
            self.is_loop = !self.is_loop;
            Command::SetLoop(self.is_loop)
        } else if key == Key::Char('e') {
            self.cycle_eq()
        } else {
            Command::Nothing
        }
    }
}

/// In a queue of `n` tracks the cursor keys stay on a line of the queue, and moving
/// down then up, or up then down, brings the cursor back to the line it was on.
pub proof fn lemma_queue_cursor_inverse(c: nat, n: nat)
    requires
        c < n,
    ensures
        cursor_up(c, n) < n,
        cursor_down(c, n) < n,
        cursor_up(cursor_down(c, n), n) == c,
        cursor_down(cursor_up(c, n), n) == c,
{
}

/// Removing a track that is not playing keeps the same track current; removing the one
/// playing makes the track after it current, or the first when it was last.
pub proof fn lemma_removal_keeps_current(queue: Seq<Track>, cur: nat, idx: nat)
    requires
        cur < queue.len(),
        idx < queue.len(),
        queue.len() > 1,
    ensures
        ({
            let after = queue.remove(idx as int);
            let c = current_after_removal(cur, idx, queue.len());
            &&& c < after.len()
            &&& idx != cur ==> after[c as int] == queue[cur as int]
            &&& idx == cur && idx + 1 < queue.len() ==> after[c as int] == queue[idx + 1int]
            &&& idx == cur && idx + 1 == queue.len() ==> after[c as int] == queue[0]
        }),
{
}


/// The library list shows a `..` line first unless it is at its root.
pub open spec fn lib_offset(lib: LibraryState) -> nat {
    if at_root(lib) {
        0
    } else {
        1
    }
}

/// The entries the library list shows.
pub open spec fn lib_visible(lib: LibraryState) -> Seq<usize> {
    shown_indices(lib.entries@, lib.filter@, lib.entries@.len() as int)
}

/// The last line of the library list.
pub open spec fn lib_max(lib: LibraryState) -> nat {
    (if lib_visible(lib).len() == 0 {
        0
    } else {
        (lib_visible(lib).len() - 1) as nat
    }) + lib_offset(lib)
}

/// The entry the library list's selection stands on, if it is an entry (not `..` and
/// not past the end).
pub open spec fn lib_picked(lib: LibraryState) -> Option<usize> {
    let vidx = if lib_offset(lib) == 0 {
        lib.selected_idx as int
    } else if lib.selected_idx > 0 {
        lib.selected_idx - 1
    } else {
        0
    };
    if vidx < lib_visible(lib).len() {
        Some(lib_visible(lib)[vidx])
    } else {
        None
    }
}

/// Only the message changed: it is now `msg`, freshly set.
pub open spec fn msg_only(old_s: TuiState, new_s: TuiState, msg: Seq<char>) -> bool {
    new_s == (TuiState { status_msg: new_s.status_msg, message_set: true, ..old_s }) && says(new_s, msg)
}

/// A prompt for `action` opened with label `prompt` and text `value`, the message
/// cleared, nothing else changed.
pub open spec fn prompt_opened(old_s: TuiState, new_s: TuiState, action: InputAction, prompt: Seq<char>, value: Seq<char>) -> bool {
    &&& new_s == (TuiState { input_mode: new_s.input_mode, status_msg: None, ..old_s })
    &&& new_s.input_mode matches Some(m) && m.action == action && m.prompt@ == prompt && m.value@ == value
}

/// The next equalizer preset chosen and named, nothing else changed.
pub open spec fn eq_cycled(old_s: TuiState, new_s: TuiState, cmd: Command) -> bool {
    &&& new_s == (TuiState { eq_preset: new_s.eq_preset, status_msg: new_s.status_msg, message_set: true, ..old_s })
    &&& new_s.eq_preset == (old_s.eq_preset + 1) % (EQ_PRESET_COUNT as int)
    &&& says(new_s, "EQ: "@ + eq_names()[new_s.eq_preset as int])
    &&& cmd == Command::SetEq(new_s.eq_preset)
}

/// The open playlist closed, back on the first line of the list of playlists, with the
/// message `back to playlists`; nothing else changed.
pub open spec fn playlists_closed(old_s: TuiState, new_s: TuiState) -> bool {
    &&& new_s == (TuiState {
        playlists: PlaylistManager { current_tracks: new_s.playlists.current_tracks, selected_idx: 0, ..old_s.playlists },
        status_msg: new_s.status_msg,
        message_set: true,
        ..old_s
    })
    &&& new_s.playlists.current_tracks@.len() == 0
    &&& says(new_s, "back to playlists"@)
}

/// The library filter cleared, the selection back on the first line, with the message
/// `filter cleared`; nothing else changed.
pub open spec fn filter_cleared(old_s: TuiState, new_s: TuiState) -> bool {
    &&& new_s == (TuiState {
        library: LibraryState { filter: new_s.library.filter, selected_idx: 0, ..old_s.library },
        status_msg: new_s.status_msg,
        message_set: true,
        ..old_s
    })
    &&& new_s.library.filter@.len() == 0
    &&& says(new_s, "filter cleared"@)
}

/// The tab `tab` shown; an open playlist closed when `close` holds (its line kept), the
/// playlists left as they were otherwise; nothing else changed.
pub open spec fn tab_switched(old_s: TuiState, new_s: TuiState, tab: Tab, close: bool) -> bool {
    &&& new_s == (TuiState { active_tab: tab, playlists: new_s.playlists, ..old_s })
    &&& if close {
        new_s.playlists == (PlaylistManager { current_tracks: new_s.playlists.current_tracks, ..old_s.playlists })
            && new_s.playlists.current_tracks@.len() == 0
    } else {
        new_s.playlists == old_s.playlists
    }
}

/// The focus moved between the list and the player controls and named; nothing else
/// changed.
pub open spec fn focus_toggled(old_s: TuiState, new_s: TuiState) -> bool {
    &&& new_s == (TuiState { focus: new_s.focus, status_msg: new_s.status_msg, message_set: true, ..old_s })
    &&& new_s.focus == (if old_s.focus == Focus::List { Focus::NowPlaying } else { Focus::List })
    &&& says(new_s, "focus: "@ + new_s.focus.spec_label())
}

/// The state after a track is queued at the end, nothing else changed.
pub open spec fn queued(old_s: TuiState, new_s: TuiState, t: Track) -> bool {
    new_s.queue@ == old_s.queue@.push(t) && new_s == (TuiState { queue: new_s.queue, ..old_s })
}

/// The state after the library changed as `lib` says, nothing else changed.
pub open spec fn library_became(old_s: TuiState, new_s: TuiState) -> bool {
    new_s == (TuiState { library: new_s.library, ..old_s })
}

impl TuiState {
    /// Queues a track and asks the player to append it.
    fn queue_track(&mut self, t: Track) -> (cmd: Command)
        requires
            old(self).wf(),
        ensures
            final(self).wf(),
            queued(*old(self), *final(self), t),
            cmd == Command::Append(t.path, t.title),
    {
        let path = t.path.clone();
        let title = t.title.clone();
        self.queue.push(t);
        Command::Append(path, title)
    }

    /// Answers a key in the library list.
    pub fn library_key(&mut self, key: Key) -> (cmd: Command)
        requires
            old(self).wf(),
        ensures
            final(self).wf(),
            (key == Key::Up || key == Key::Char('k')) ==> library_became(*old(self), *final(self))
                && final(self).library == (LibraryState {
                    selected_idx: if old(self).library.selected_idx > 0 {
                        (old(self).library.selected_idx - 1) as usize
                    } else if lib_max(old(self).library) > 0 {
                        lib_max(old(self).library) as usize
                    } else {
                        old(self).library.selected_idx
                    },
                    ..old(self).library
                }) && cmd is Nothing,
            (key == Key::Down || key == Key::Char('j')) ==> library_became(*old(self), *final(self))
                && final(self).library == (LibraryState {
                    selected_idx: if old(self).library.selected_idx < lib_max(old(self).library) {
                        (old(self).library.selected_idx + 1) as usize
                    } else {
                        0
                    },
                    ..old(self).library
                }) && cmd is Nothing,
            (key == Key::Enter || key == Key::Right) && lib_offset(old(self).library) == 1 && old(self).library.selected_idx == 0
                ==> library_became(*old(self), *final(self)) && match parent_target(old(self).library.root_dir@, old(self).library.current_dir@) {
                    Some(d) => moved_to(old(self).library, final(self).library, d) && cmd is Rescan,
                    None => final(self).library == old(self).library && cmd is Nothing,
                },
            (key == Key::Enter || key == Key::Right) && !(lib_offset(old(self).library) == 1 && old(self).library.selected_idx == 0)
                ==> match lib_picked(old(self).library) {
                    None => *final(self) == *old(self) && cmd is Nothing,
                    Some(e) => match old(self).library.entries@[e as int] {
                        LibraryEntry::Folder(_) => library_became(*old(self), *final(self)) && moved_to(
                            old(self).library,
                            final(self).library,
                            folder_target(old(self).library.current_dir@, old(self).library.entries@, e as int)->Some_0,
                        ) && cmd is Rescan,
                        LibraryEntry::Track(t) => queued(*old(self), *final(self), t) && cmd == Command::Append(t.path, t.title),
                    },
                },
            (key == Key::Left || key == Key::Backspace) ==> library_became(*old(self), *final(self)) && match parent_target(old(self).library.root_dir@, old(self).library.current_dir@) {
                Some(d) => moved_to(old(self).library, final(self).library, d) && cmd is Rescan,
                None => final(self).library == old(self).library && cmd is Nothing,
            },
            key == Key::Char('a') ==> match lib_picked(old(self).library) {
                Some(e) => match old(self).library.entries@[e as int] {
                    LibraryEntry::Track(t) => queued(*old(self), *final(self), t) && cmd == Command::Append(t.path, t.title),
                    LibraryEntry::Folder(_) => *final(self) == *old(self) && cmd is Nothing,
                },
                None => *final(self) == *old(self) && cmd is Nothing,
            },
            key == Key::Char('c') ==> prompt_opened(*old(self), *final(self), InputAction::ChangeLibraryRoot,
                "library directory"@, old(self).library.current_dir@) && cmd is Nothing,
            key == Key::Char('/') ==> prompt_opened(*old(self), *final(self), InputAction::FilterLibrary,
                "filter library"@, old(self).library.filter@) && cmd is Nothing,
            key == Key::Char('r') ==> *final(self) == *old(self) && cmd is ScanWithProgress,
            key == Key::Char('e') ==> eq_cycled(*old(self), *final(self), cmd),
            !(key == Key::Up || key == Key::Char('k') || key == Key::Down || key == Key::Char('j')
                || key == Key::Enter || key == Key::Right || key == Key::Left || key == Key::Backspace
                || key == Key::Char('a') || key == Key::Char('c') || key == Key::Char('/')
                || key == Key::Char('r') || key == Key::Char('e')) ==> *final(self) == *old(self) && cmd is Nothing,
    {
        let is_root = self.library.is_at_root();
        let offset: usize = if is_root {
            0
        } else {
            1
        };
        let visible = self.library.visible_entries();
        let max_idx = (if visible.len() == 0 {
            0
        } else {
            visible.len() - 1
        }) + offset;
        let sel = self.library.selected_idx;
        let vidx = if is_root {
            sel
        } else if sel > 0 {
            sel - 1
        } else {
            0
        };
        if key == Key::Up || key == Key::Char('k') {
            if sel > 0 {
                self.library.selected_idx = sel - 1;
            } else if max_idx > 0 {
                self.library.selected_idx = max_idx;
            }
            Command::Nothing
        } else if key == Key::Down || key == Key::Char('j') {
            if sel < max_idx {
                self.library.selected_idx = sel + 1;
            } else {
                self.library.selected_idx = 0;
            }
            Command::Nothing
        } else if key == Key::Enter || key == Key::Right {
            if !is_root && sel == 0 {
                if self.library.go_to_parent() {
                    return Command::Rescan;
                }
                return Command::Nothing;
            }
            if vidx < visible.len() {
                let eidx = visible[vidx];
                let entry = self.library.entries[eidx].duplicate();
                match entry {
                    LibraryEntry::Folder(_) => {
                        self.library.selected_idx = eidx;
                        self.library.enter_folder();
                        Command::Rescan
                    },
                    LibraryEntry::Track(t) => self.queue_track(t),
                }
            } else {
                Command::Nothing
            }
        } else if key == Key::Left || key == Key::Backspace {
            if self.library.go_to_parent() {
                Command::Rescan
            } else {
                Command::Nothing
            }
        } else if key == Key::Char('a') {
            if vidx < visible.len() {
                let eidx = visible[vidx];
                let entry = self.library.entries[eidx].duplicate();
                match entry {
                    LibraryEntry::Track(t) => self.queue_track(t),
                    LibraryEntry::Folder(_) => Command::Nothing,
                }
            } else {
                Command::Nothing
            }
        } else if key == Key::Char('c') {
            let v = self.library.current_dir.clone();
            self.start_input(InputAction::ChangeLibraryRoot, "library directory", v);
            Command::Nothing
        } else if key == Key::Char('/') {
            let v = self.library.filter.clone();
            self.start_input(InputAction::FilterLibrary, "filter library", v);
            Command::Nothing
        } else if key == Key::Char('r') {
            Command::ScanWithProgress
        } else if key == Key::Char('e') {
            self.cycle_eq()
        } else {
            Command::Nothing
        }
    }
}


/// The state after the playlist tab changed as `pl` says, nothing else changed.
pub open spec fn playlists_became(old_s: TuiState, new_s: TuiState) -> bool {
    new_s == (TuiState { playlists: new_s.playlists, ..old_s })
}

/// The number of lines of the playlist tab.
pub open spec fn pl_total(pl: PlaylistManager) -> nat {
    if pl.current_tracks@.len() == 0 {
        pl.playlists@.len()
    } else {
        pl.current_tracks@.len()
    }
}

impl TuiState {
    /// Answers a key in the playlist list.
    pub fn playlist_key(&mut self, key: Key) -> (cmd: Command)
        requires
            old(self).wf(),
        ensures
            final(self).wf(),
            (key == Key::Up || key == Key::Char('k')) ==> playlists_became(*old(self), *final(self))
                && final(self).playlists == (PlaylistManager {
                    selected_idx: if old(self).playlists.selected_idx > 0 {
                        (old(self).playlists.selected_idx - 1) as usize
                    } else if pl_total(old(self).playlists) > 0 {
                        (pl_total(old(self).playlists) - 1) as usize
                    } else {
                        old(self).playlists.selected_idx
                    },
                    ..old(self).playlists
                }) && cmd is Nothing,
            (key == Key::Down || key == Key::Char('j')) ==> playlists_became(*old(self), *final(self))
                && final(self).playlists == (PlaylistManager {
                    selected_idx: if old(self).playlists.selected_idx + 1 < pl_total(old(self).playlists) {
                        (old(self).playlists.selected_idx + 1) as usize
                    } else {
                        0
                    },
                    ..old(self).playlists
                }) && cmd is Nothing,
            key == Key::Enter ==> *final(self) == *old(self) && if old(self).playlists.current_tracks@.len() == 0
                && old(self).playlists.selected_idx < old(self).playlists.playlists@.len() {
                cmd == Command::LoadPlaylist(old(self).playlists.playlists@[old(self).playlists.selected_idx as int])
            } else {
                cmd is Nothing
            },
            key == Key::Backspace ==> playlists_closed(*old(self), *final(self)) && cmd is RefreshPlaylists,
            key == Key::Char('n') ==> prompt_opened(*old(self), *final(self), InputAction::NewPlaylist,
                "playlist name"@, Seq::empty()) && cmd is Nothing,
            key == Key::Char('s') ==> if old(self).queue@.len() > 0 {
                prompt_opened(*old(self), *final(self), InputAction::SavePlaylist, "save playlist as"@, Seq::empty())
                    && cmd is Nothing
            } else {
                msg_only(*old(self), *final(self), "error: queue is empty"@) && cmd is Nothing
            },
            key == Key::Char('d') ==> *final(self) == *old(self) && if old(self).playlists.current_tracks@.len() == 0
                && old(self).playlists.selected_idx < old(self).playlists.playlists@.len() {
                cmd == Command::DeletePlaylist(old(self).playlists.playlists@[old(self).playlists.selected_idx as int])
            } else {
                cmd is Nothing
            },
            key == Key::Char('a') ==> if old(self).playlists.selected_idx < old(self).playlists.current_tracks@.len() {
                let t = old(self).playlists.current_tracks@[old(self).playlists.selected_idx as int];
                queued(*old(self), *final(self), t) && cmd == Command::Append(t.path, t.title)
            } else {
                *final(self) == *old(self) && cmd is Nothing
            },
            key == Key::Char('e') ==> eq_cycled(*old(self), *final(self), cmd),
            !(key == Key::Up || key == Key::Char('k') || key == Key::Down || key == Key::Char('j')
                || key == Key::Enter || key == Key::Backspace || key == Key::Char('n') || key == Key::Char('s')
                || key == Key::Char('d') || key == Key::Char('a') || key == Key::Char('e'))
                ==> *final(self) == *old(self) && cmd is Nothing,
    {
        let max = self.playlists.total_items();
        let sel = self.playlists.selected_idx;
        if key == Key::Up || key == Key::Char('k') {
            if sel > 0 {
                self.playlists.selected_idx = sel - 1;
            } else if max > 0 {
                self.playlists.selected_idx = max - 1;
            }
            Command::Nothing
        } else if key == Key::Down || key == Key::Char('j') {
            if sel < max && sel + 1 < max {
                self.playlists.selected_idx = sel + 1;
            } else {
                self.playlists.selected_idx = 0;
            }
            Command::Nothing
        } else if key == Key::Enter {
            if self.playlists.current_tracks.len() == 0 && sel < self.playlists.playlists.len() {
                Command::LoadPlaylist(self.playlists.playlists[sel].clone())
            } else {
                Command::Nothing
            }
        } else if key == Key::Backspace {
            self.playlists.current_tracks = Vec::new();
            self.playlists.selected_idx = 0;
            self.set_message(String::from_str("back to playlists"));
            Command::RefreshPlaylists
        } else if key == Key::Char('n') {
            self.start_input(InputAction::NewPlaylist, "playlist name", String::new());
            Command::Nothing
        } else if key == Key::Char('s') {
            if self.queue.len() > 0 {
                self.start_input(InputAction::SavePlaylist, "save playlist as", String::new());
            } else {
                self.set_message(String::from_str("error: queue is empty"));
            }
            Command::Nothing
        } else if key == Key::Char('d') {
            if self.playlists.current_tracks.len() == 0 && sel < self.playlists.playlists.len() {
                Command::DeletePlaylist(self.playlists.playlists[sel].clone())
            } else {
                Command::Nothing
            }
        } else if key == Key::Char('a') {
            if sel < self.playlists.current_tracks.len() {
                let t = self.playlists.current_tracks[sel].duplicate();
                self.queue_track(t)
            } else {
                Command::Nothing
            }
        } else if key == Key::Char('e') {
            self.cycle_eq()
        } else {
            Command::Nothing
        }
    }

    /// Answers a key in the player controls.
    pub fn now_playing_key(&mut self, key: Key) -> (cmd: Command)
        requires
            old(self).wf(),
        ensures
            final(self).wf(),
            key == Key::Char(' ') ==> *final(self) == *old(self) && cmd is TogglePause,
            key == Key::Char('m') ==> *final(self) == *old(self) && cmd is ToggleMute,
            key == Key::Char('l') ==> *final(self) == (TuiState { is_loop: !old(self).is_loop, ..*old(self) })
                && cmd == Command::SetLoop(!old(self).is_loop),
            key == Key::Char(',') ==> *final(self) == *old(self) && cmd is PitchDown,
            key == Key::Char('.') ==> *final(self) == *old(self) && cmd is PitchUp,
            key == Key::Char('{') ==> *final(self) == *old(self) && cmd == Command::SeekRelative(-60i32),
            key == Key::Char('}') ==> *final(self) == *old(self) && cmd == Command::SeekRelative(60i32),
            key == Key::Right ==> *final(self) == *old(self) && cmd == Command::SeekRelative(5i32),
            (key == Key::Left || key == Key::Char('h')) ==> *final(self) == *old(self) && cmd == Command::SeekRelative(-5i32),
            key == Key::Up ==> *final(self) == *old(self) && cmd is VolumeUp,
            key == Key::Down ==> *final(self) == *old(self) && cmd is VolumeDown,
            key == Key::Char('0') ==> *final(self) == (TuiState { eq_preset: 0, ..*old(self) }) && cmd is ResetFx,
            forall|c: char| '1' <= c && c <= '9' && key == Key::Char(c) ==> *final(self) == *old(self)
                && cmd == Command::SeekPercent((((c as u32) - ('0' as u32)) * 10) as u32),
            (key == Key::Char('+') || key == Key::Char('=')) ==> *final(self) == *old(self) && cmd is SpeedUp,
            (key == Key::Char('-') || key == Key::Char('_')) ==> *final(self) == *old(self) && cmd is SpeedDown,
            key == Key::Char('e') ==> eq_cycled(*old(self), *final(self), cmd),
    {
        match key {
            Key::Char(' ') => Command::TogglePause,
            Key::Char('m') => Command::ToggleMute,
            Key::Char('l') => {
                self.is_loop = !self.is_loop;
                Command::SetLoop(self.is_loop)
            },
            Key::Char(',') => Command::PitchDown,
            Key::Char('.') => Command::PitchUp,
            Key::Char('{') => Command::SeekRelative(-60),
            Key::Char('}') => Command::SeekRelative(60),
            Key::Right => Command::SeekRelative(5),
            Key::Left | Key::Char('h') => Command::SeekRelative(-5),
            Key::Up => Command::VolumeUp,
            Key::Down => Command::VolumeDown,
            Key::Char('0') => {
                self.eq_preset = 0;
                Command::ResetFx
            },
            Key::Char('+') | Key::Char('=') => Command::SpeedUp,
            Key::Char('-') | Key::Char('_') => Command::SpeedDown,
            Key::Char('e') => self.cycle_eq(),
            Key::Char(c) => {
                if '1' <= c && c <= '9' {
                    Command::SeekPercent(digit_value(c) * 10)
                } else {
                    Command::Nothing
                }
            },
            _ => Command::Nothing,
        }
    }
}

/// The value of a decimal digit.
fn digit_value(c: char) -> (d: u32)
    requires
        '0' <= c && c <= '9',
    ensures
        d == (c as u32) - ('0' as u32),
        d <= 9,
{
    match c {
        '0' => 0,
        '1' => 1,
        '2' => 2,
        '3' => 3,
        '4' => 4,
        '5' => 5,
        '6' => 6,
        '7' => 7,
        '8' => 8,
        _ => 9,
    }
}


/// The paths of the queued tracks, in order.
pub open spec fn queue_paths(q: Seq<Track>) -> Seq<Seq<char>> {
    q.map_values(|t: Track| t.path@)
}

/// `n result` or `n results`.
pub open spec fn result_count(n: nat) -> Seq<char> {
    decimal(n) + " result"@ + if n == 1 {
        ""@
    } else {
        "s"@
    }
}

/// What a key does while a prompt is open in state `old`: Esc closes the prompt and says
/// so; Backspace drops the text's last character; a character is added to the text;
/// Enter closes the prompt and applies its text as `apply_outcome` says; any other key
/// changes nothing. Only Enter gives a command other than `Nothing`.
pub open spec fn input_outcome(old: TuiState, key: Key, new: TuiState, cmd: Command) -> bool {
    let m = old.input_mode->Some_0;
    match key {
        Key::Esc => new == (TuiState { input_mode: None, status_msg: new.status_msg, message_set: true, ..old })
            && says(new, "cancelled"@) && cmd is Nothing,
        Key::Backspace => new == (TuiState { input_mode: new.input_mode, ..old })
            && (new.input_mode matches Some(n) && n.action == m.action && n.prompt == m.prompt
                && n.value@ == (if m.value@.len() > 0 { m.value@.drop_last() } else { m.value@ }))
            && cmd is Nothing,
        Key::Char(c) => new == (TuiState { input_mode: new.input_mode, ..old })
            && (new.input_mode matches Some(n) && n.action == m.action && n.prompt == m.prompt
                && n.value@ == m.value@.push(c))
            && cmd is Nothing,
        Key::Enter => apply_outcome(TuiState { input_mode: None, ..old }, m.action, m.value@, new, cmd),
        _ => new == old && cmd is Nothing,
    }
}

/// What `apply_input` may make of the state `old` and the prompt's `action` and text
/// `value`: the new state `new` and the command `cmd`. Changing the library's root
/// depends on the disk, so that action may give either of two outcomes.
pub open spec fn apply_outcome(old: TuiState, action: InputAction, value: Seq<char>, new: TuiState, cmd: Command) -> bool {
    &&& new.wf()
    &&& action != InputAction::FilterLibrary && trim(value).len() == 0 ==> msg_only(old, new, "cancelled"@) && cmd is Nothing
    &&& action == InputAction::ChangeLibraryRoot && trim(value).len() > 0 && has_dotdot_component(trim(value))
        ==> cmd is Nothing
        && msg_only(old, new, "error: config path error: music directory must not contain '..' components"@)
    &&& action == InputAction::ChangeLibraryRoot && trim(value).len() > 0 && !has_dotdot_component(trim(value))
        ==> match cmd {
        Command::Rescan => (exists|f: DiskFinding| finding_ok(f) && music_verdict(trim(value), f, Ok(new.library.root_dir)))
            && new == (TuiState { library: new.library, status_msg: new.status_msg, message_set: true, ..old })
            && new.library.current_dir == new.library.root_dir
            && new.library.entries@.len() == 0
            && new.library.selected_idx == 0
            && new.library.filter@.len() == 0
            && says(new, "library: "@ + new.library.root_dir@),
        Command::Nothing => exists|f: DiskFinding, e: Error| finding_ok(f) && music_verdict(trim(value), f, Err(e))
            && msg_only(old, new, "error: "@ + e.spec_message()),
        _ => false,
    }
    &&& action == InputAction::NewPlaylist && trim(value).len() > 0 ==> (cmd matches Command::CreatePlaylist(n) && n@ == trim(value))
        && new == old
    &&& action == InputAction::SavePlaylist && trim(value).len() > 0 ==> (cmd matches Command::SavePlaylist(n, ps)
        && n@ == trim(value) && views(ps@) == queue_paths(old.queue@)) && new == old
    &&& action == InputAction::FilterLibrary ==> new == (TuiState {
        library: LibraryState { filter: new.library.filter, selected_idx: 0, ..old.library },
        status_msg: new.status_msg,
        message_set: true,
        ..old
    }) && new.library.filter@ == trim(value) && cmd is Nothing
        && says(new, "filter: "@ + result_count(shown_indices(
            new.library.entries@,
            new.library.filter@,
            new.library.entries@.len() as int,
        ).len()))
}


impl TuiState {
    /// Acts on what was typed into a prompt (trimmed): a new library root, a new or saved
    /// playlist, or a library filter. Nothing typed cancels, but for the filter.
    pub fn apply_input(&mut self, action: InputAction, value: &str) -> (cmd: Command)
        requires
            old(self).wf(),
        ensures
            apply_outcome(*old(self), action, value@, *final(self), cmd),
    {
        let v = trim_string(value);
        let empty = v.unicode_len() == 0;
        match action {
            InputAction::ChangeLibraryRoot => {
                if empty {
                    self.set_message(String::from_str("cancelled"));
                    return Command::Nothing;
                }
                let r = resolve_music_dir(v.as_str());
                let ghost rg = r;
                match r {
                    Ok(p) => {
                        let mut m = String::from_str("library: ");
                        m.append(p.as_str());
                        let ghost pv = p@;
                        self.library.change_root(p);
                        assert(self.library.root_dir@ == pv);
                        self.set_message(m);
                        Command::Rescan
                    },
                    Err(e) => {
                        let mut m = String::from_str("error: ");
                        let d = e.message();
                        m.append(d.as_str());
                        proof {
                            reveal_strlit("error: ");
                            reveal_strlit("config path error: ");
                            reveal_strlit("music directory must not contain '..' components");
                            reveal_strlit("error: config path error: music directory must not contain '..' components");
                            assert(m@ == "error: "@ + e.spec_message());
                            if has_dotdot_component(v@) {
                                assert(m@ =~= "error: config path error: music directory must not contain '..' components"@);
                            }
                        }
                        self.set_message(m);
                        Command::Nothing
                    },
                }
            },
            InputAction::NewPlaylist => {
                if empty {
                    self.set_message(String::from_str("cancelled"));
                    return Command::Nothing;
                }
                Command::CreatePlaylist(v)
            },
            InputAction::SavePlaylist => {
                if empty {
                    self.set_message(String::from_str("cancelled"));
                    return Command::Nothing;
                }
                let mut paths: Vec<String> = Vec::new();
                let mut i: usize = 0;
                while i < self.queue.len()
                    invariant
                        i <= self.queue@.len(),
                        views(paths@) == queue_paths(self.queue@).take(i as int),
                    decreases self.queue@.len() - i,
                {
                    let ghost before = views(paths@);
                    paths.push(self.queue[i].path.clone());
                    assert(views(paths@) =~= before.push(self.queue@[i as int].path@));
                    assert(queue_paths(self.queue@).take(i + 1) =~= queue_paths(self.queue@).take(i as int).push(self.queue@[i as int].path@));
                    i += 1;
                }
                assert(queue_paths(self.queue@).take(i as int) =~= queue_paths(self.queue@));
                Command::SavePlaylist(v, paths)
            },
            InputAction::FilterLibrary => {
                self.library.filter = v;
                self.library.selected_idx = 0;
                let count = self.library.visible_entries().len();
                let mut m = String::from_str("filter: ");
                append_decimal(&mut m, count);
                m.append(" result");
                if count != 1 {
                    m.append("s");
                }
                proof {
                    reveal_strlit("");
                    assert(m@ =~= "filter: "@ + result_count(count as nat));
                }
                self.set_message(m);
                Command::Nothing
            },
        }
    }
}

impl TuiState {
    /// Answers a key while a prompt is open: Esc cancels, Backspace deletes, Enter acts
    /// on the text, a character is typed.
    pub fn input_key(&mut self, key: Key) -> (cmd: Command)
        requires
            old(self).wf(),
            old(self).input_mode is Some,
        ensures
            final(self).wf(),
            input_outcome(*old(self), key, *final(self), cmd),
            !(cmd is Quit),
    {
        match key {
            Key::Esc => {
                self.input_mode = None;
                self.set_message(String::from_str("cancelled"));
                Command::Nothing
            },
            Key::Backspace => {
                match self.input_mode.take() {
                    Some(m) => {
                        let v = crate::text::chars_of(m.value.as_str());
                        let n = if v.len() > 0 { v.len() - 1 } else { 0 };
                        let nv = crate::text::string_from(&v, 0, n);
                        proof {
                            if v.len() > 0 {
                                assert(v@.subrange(0, n as int) =~= v@.drop_last());
                            } else {
                                assert(v@.subrange(0, 0) =~= v@);
                            }
                        }
                        self.input_mode = Some(InputMode { action: m.action, prompt: m.prompt, value: nv });
                    },
                    None => {},
                }
                Command::Nothing
            },
            Key::Enter => {
                match self.input_mode.take() {
                    Some(m) => self.apply_input(m.action, m.value.as_str()),
                    None => Command::Nothing,
                }
            },
            Key::Char(c) => {
                match self.input_mode.take() {
                    Some(m) => {
                        let mut nv = m.value;
                        crate::text::push_char(&mut nv, c);
                        self.input_mode = Some(InputMode { action: m.action, prompt: m.prompt, value: nv });
                    },
                    None => {},
                }
                Command::Nothing
            },
            _ => Command::Nothing,
        }
    }

    /// Where a key goes: a prompt takes every key; `q` quits; Esc closes the help, leaves
    /// an open playlist, clears the library filter, or quits; Tab moves the focus; F1-F4
    /// pick a tab; `?` shows or hides the help; the rest go to the player controls or to
    /// the tab's list, as the focus says.
    pub fn route_key(&mut self, key: Key) -> (r: Route)
        requires
            old(self).wf(),
        ensures
            final(self).wf(),
            old(self).input_mode is Some ==> (r matches Route::Handled(c) && input_outcome(*old(self), key, *final(self), c)
                && !(c is Quit)),
            old(self).input_mode is None ==> {
                &&& key == Key::Char('q') ==> *final(self) == *old(self) && r == Route::Handled(Command::Quit)
                &&& key == Key::Esc ==> if old(self).show_help_popup {
                    *final(self) == (TuiState { show_help_popup: false, ..*old(self) }) && r == Route::Handled(Command::Nothing)
                } else if old(self).active_tab == Tab::Playlists && old(self).playlists.current_tracks@.len() > 0 {
                    playlists_closed(*old(self), *final(self)) && r == Route::Handled(Command::RefreshPlaylists)
                } else if old(self).active_tab == Tab::Library && old(self).library.filter@.len() > 0 {
                    filter_cleared(*old(self), *final(self)) && r == Route::Handled(Command::Nothing)
                } else {
                    *final(self) == *old(self) && r == Route::Handled(Command::Quit)
                }
                &&& key == Key::Tab ==> focus_toggled(*old(self), *final(self)) && r == Route::Handled(Command::Nothing)
                &&& key == Key::F(1) ==> tab_switched(*old(self), *final(self), Tab::Queue, old(self).active_tab == Tab::Playlists)
                    && r == Route::Handled(Command::Nothing)
                &&& key == Key::F(2) ==> tab_switched(*old(self), *final(self), Tab::Library, old(self).active_tab == Tab::Playlists)
                    && r == Route::Handled(Command::Nothing)
                &&& key == Key::F(3) ==> tab_switched(*old(self), *final(self), Tab::Playlists, true)
                    && r == Route::Handled(Command::RefreshPlaylists)
                &&& key == Key::F(4) ==> tab_switched(*old(self), *final(self), Tab::Stats, old(self).active_tab == Tab::Playlists)
                    && r == Route::Handled(Command::Nothing)
                &&& key == Key::Char('?') ==> *final(self) == (TuiState { show_help_popup: !old(self).show_help_popup, ..*old(self) })
                    && r == Route::Handled(Command::Nothing)
                &&& !(key == Key::Char('q') || key == Key::Esc || key == Key::Tab || key == Key::F(1) || key == Key::F(2)
                    || key == Key::F(3) || key == Key::F(4) || key == Key::Char('?')) ==> *final(self) == *old(self) && r == (
                    if old(self).focus == Focus::NowPlaying {
                        Route::NowPlaying
                    } else {
                        match old(self).active_tab {
                            Tab::Queue => Route::Queue,
                            Tab::Library => Route::Library,
                            Tab::Playlists => Route::Playlists,
                            Tab::Stats => Route::Ignored,
                        }
                    })
            },
    {
        if self.input_mode.is_some() {
            let c = self.input_key(key);
            return Route::Handled(c);
        }
        if key == Key::Char('q') {
            return Route::Handled(Command::Quit);
        }
        if key == Key::Esc {
            if self.show_help_popup {
                self.show_help_popup = false;
                return Route::Handled(Command::Nothing);
            }
            if self.active_tab == Tab::Playlists && self.playlists.current_tracks.len() > 0 {
                self.playlists.current_tracks = Vec::new();
                self.playlists.selected_idx = 0;
                self.set_message(String::from_str("back to playlists"));
                return Route::Handled(Command::RefreshPlaylists);
            }
            if self.active_tab == Tab::Library && self.library.filter.unicode_len() > 0 {
                self.library.filter = String::new();
                self.library.selected_idx = 0;
                self.set_message(String::from_str("filter cleared"));
                return Route::Handled(Command::Nothing);
            }
            return Route::Handled(Command::Quit);
        }
        if key == Key::Tab {
            self.focus = match self.focus {
                Focus::List => Focus::NowPlaying,
                Focus::NowPlaying => Focus::List,
            };
            let mut m = String::from_str("focus: ");
            m.append(self.focus.label());
            self.set_message(m);
            return Route::Handled(Command::Nothing);
        }
        if key == Key::F(1) {
            let was_playlists = self.active_tab == Tab::Playlists;
            self.active_tab = Tab::Queue;
            if was_playlists {
                self.playlists.current_tracks = Vec::new();
            }
            return Route::Handled(Command::Nothing);
        }
        if key == Key::F(2) {
            if self.active_tab == Tab::Playlists {
                self.playlists.current_tracks = Vec::new();
            }
            self.active_tab = Tab::Library;
            return Route::Handled(Command::Nothing);
        }
        if key == Key::F(3) {
            self.active_tab = Tab::Playlists;
            self.playlists.current_tracks = Vec::new();
            return Route::Handled(Command::RefreshPlaylists);
        }
        if key == Key::F(4) {
            if self.active_tab == Tab::Playlists {
                self.playlists.current_tracks = Vec::new();
            }
            self.active_tab = Tab::Stats;
            return Route::Handled(Command::Nothing);
        }
        if key == Key::Char('?') {
            self.show_help_popup = !self.show_help_popup;
            return Route::Handled(Command::Nothing);
        }
        if self.focus == Focus::NowPlaying {
            return Route::NowPlaying;
        }
        match self.active_tab {
            Tab::Queue => Route::Queue,
            Tab::Library => Route::Library,
            Tab::Playlists => Route::Playlists,
            Tab::Stats => Route::Ignored,
        }
    }

    /// When a track ends (the player at position `pos` of `count`) and the queue is not
    /// looping: at the end of the player's list, the next queued track, if any, becomes
    /// current and is played, and the message says so.
    pub fn advance_on_end(&mut self, pos: i64, count: i64) -> (cmd: Command)
        requires
            old(self).wf(),
        ensures
            final(self).wf(),
            ({
                let at_end = pos < 0 || pos + 1 >= count;
                let n = old(self).queue@.len();
                let c = old(self).current_track_idx;
                if !old(self).is_loop && at_end && c + 1 < n {
                    let t = old(self).queue@[c + 1];
                    &&& final(self).current_track_idx == c + 1
                    &&& final(self).queue_cursor == c + 1
                    &&& says(*final(self), "now playing: "@ + t.title@)
                    &&& cmd == Command::Advance(t.path)
                    &&& *final(self) == (TuiState {
                        current_track_idx: final(self).current_track_idx,
                        queue_cursor: final(self).queue_cursor,
                        status_msg: final(self).status_msg,
                        message_set: true,
                        ..*old(self)
                    })
                } else {
                    *final(self) == *old(self) && cmd is Nothing
                }
            }),
    {
        let at_end = pos < 0 || (pos as i128) + 1 >= (count as i128);
        let n = self.queue.len();
        if !self.is_loop && at_end && self.current_track_idx < n && self.current_track_idx + 1 < n {
            self.current_track_idx = self.current_track_idx + 1;
            self.queue_cursor = self.current_track_idx;
            let path = self.queue[self.current_track_idx].path.clone();
            let mut m = String::from_str("now playing: ");
            m.append(self.queue[self.current_track_idx].title.as_str());
            self.set_message(m);
            Command::Advance(path)
        } else {
            Command::Nothing
        }
    }
}

} // verus!
