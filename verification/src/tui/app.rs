//! The terminal interface's model: tracks, the library browser, playlists, tabs.
use vstd::prelude::*;
use crate::firecore::config::home_dir;
use crate::firecore::store::{entries_of, parse_playlist, sorted_texts, stem_names, stems};
use crate::text::{
    contains, contains_seq, has_prefix, is_blank_str, join_path, lines, lower_ascii, path_join,
    starts_with, str_eq, string_from, chars_of, text_less, text_lt, trim, views,
    lemma_text_lt_total, lemma_text_lt_trans,
};

verus! {

broadcast use vstd::seq_lib::group_to_multiset_ensures;

// ---------------------------------------------------------------------------
// Trusted std calls on paths and text
// ---------------------------------------------------------------------------

/// What `str::to_lowercase` returns for a text.
pub uninterp spec fn unicode_lower(s: Seq<char>) -> Seq<char>;

/// What `Path::file_stem` returns for a path.
pub uninterp spec fn path_stem(p: Seq<char>) -> Option<Seq<char>>;

/// What `Path::extension` returns for a path.
pub uninterp spec fn path_ext(p: Seq<char>) -> Option<Seq<char>>;

/// What `Path::parent` returns for a path.
pub uninterp spec fn path_parent(p: Seq<char>) -> Option<Seq<char>>;

/// What `Path::starts_with` returns: whether the first path's leading components are
/// the second's.
pub uninterp spec fn path_under(p: Seq<char>, base: Seq<char>) -> bool;

/// What `==` on two `Path`s returns: whether they have the same components.
pub uninterp spec fn path_same(a: Seq<char>, b: Seq<char>) -> bool;

/// Every character is ASCII.
pub open spec fn ascii_only(s: Seq<char>) -> bool {
    forall|i: int| 0 <= i < s.len() ==> (#[trigger] s[i] as u32) < 128
}

/// The optional text's characters.
pub open spec fn opt_chars(o: Option<String>) -> Option<Seq<char>> {
    match o {
        Some(s) => Some(s@),
        None => None,
    }
}

/// `str::to_lowercase`: the Unicode lower case of a text. The contract names the
/// result; of ASCII text it states that only the letters A to Z change, to a to z.
#[verifier::external_body]
pub(crate) fn to_lowercase(s: &str) -> (out: String)
    ensures
        out@ == unicode_lower(s@),
        ascii_only(s@) ==> out@ == lower_ascii(s@),
{
    s.to_lowercase()
}

/// `Path::file_stem`: the file name without its last extension (as lossy text). The
/// contract names the result; the component rules are not spelled out.
#[verifier::external_body]
pub(crate) fn file_stem(path: &str) -> (out: Option<String>)
    ensures
        opt_chars(out) == path_stem(path@),
{
    std::path::Path::new(path).file_stem().map(|s| s.to_string_lossy().into_owned())
}

/// `Path::extension`: the file name's last extension (as lossy text). The contract
/// names the result; the component rules are not spelled out.
#[verifier::external_body]
pub(crate) fn file_extension(path: &str) -> (out: Option<String>)
    ensures
        opt_chars(out) == path_ext(path@),
{
    std::path::Path::new(path).extension().map(|s| s.to_string_lossy().into_owned())
}

/// `Path::parent`: the path without its last component, if it has one. The contract
/// names the result; the component rules are not spelled out.
#[verifier::external_body]
pub(crate) fn parent_dir(path: &str) -> (out: Option<String>)
    ensures
        opt_chars(out) == path_parent(path@),
{
    std::path::Path::new(path).parent().map(|p| p.to_string_lossy().into_owned())
}

/// `==` on two `Path`s: whether they have the same components (so `/m` and `/m/` are the
/// same path). The contract names the result, and states that equal texts are the same
/// path; the component rules are not spelled out.
#[verifier::external_body]
pub(crate) fn same_path(a: &str, b: &str) -> (r: bool)
    ensures
        r == path_same(a@, b@),
        a@ == b@ ==> r,
{
    std::path::Path::new(a) == std::path::Path::new(b)
}

/// `Path::starts_with`: whether `base` is a leading run of `path`'s components. The
/// contract names the result; the component rules are not spelled out.
#[verifier::external_body]
pub(crate) fn path_starts_with(path: &str, base: &str) -> (b: bool)
    ensures
        b == path_under(path@, base@),
{
    std::path::Path::new(path).starts_with(base)
}

// ---------------------------------------------------------------------------
// Tracks, tabs, focus
// ---------------------------------------------------------------------------

/// A track the interface lists or queues.
#[derive(Debug)]
pub struct Track {
    pub title: String,
    pub path: String,
    pub artist: Option<String>,
    pub album: Option<String>,
}

/// A copy of an optional text.
pub fn copy_opt(o: &Option<String>) -> (out: Option<String>)
    ensures
        out == *o,
{
    match o {
        Some(s) => Some(s.clone()),
        None => None,
    }
}

impl Track {
    /// A track for a file, titled `title`, with no artist or album known.
    pub fn new(title: String, path: String) -> (t: Track)
        ensures
            t.title == title,
            t.path == path,
            t.artist is None,
            t.album is None,
    {
        Track { title, path, artist: None, album: None }
    }

    /// An equal copy of the track.
    pub fn duplicate(&self) -> (out: Track)
        ensures
            out == *self,
    {
        Track {
            title: self.title.clone(),
            path: self.path.clone(),
            artist: copy_opt(&self.artist),
            album: copy_opt(&self.album),
        }
    }
}

/// The interface's tabs.
#[derive(Debug, PartialEq, Eq, Structural, Clone, Copy)]
pub enum Tab {
    Queue,
    Library,
    Playlists,
    Stats,
}

impl Tab {
    /// The tab's title.
    pub open spec fn spec_title(self) -> Seq<char> {
        match self {
            Tab::Queue => "Queue"@,
            Tab::Library => "Library"@,
            Tab::Playlists => "Playlists"@,
            Tab::Stats => "Stats"@,
        }
    }

    /// The tab's title.
    pub fn title(self) -> (out: &'static str)
        ensures
            out@ == self.spec_title(),
    {
        match self {
            Tab::Queue => "Queue",
            Tab::Library => "Library",
            Tab::Playlists => "Playlists",
            Tab::Stats => "Stats",
        }
    }
}

/// Where the keys go: the list of the tab, or the player.
#[derive(Debug, PartialEq, Eq, Structural, Clone, Copy)]
pub enum Focus {
    List,
    NowPlaying,
}

impl Focus {
    /// The focus's name as shown.
    pub open spec fn spec_label(self) -> Seq<char> {
        match self {
            Focus::List => "list"@,
            Focus::NowPlaying => "now playing"@,
        }
    }

    /// The focus's name as shown.
    pub fn label(self) -> (out: &'static str)
        ensures
            out@ == self.spec_label(),
    {
        match self {
            Focus::List => "list",
            Focus::NowPlaying => "now playing",
        }
    }
}

/// The equalizer presets: their mpv audio filters, in cycling order.
pub open spec fn eq_filters() -> Seq<Seq<char>> {
    seq![
        ""@,
        "bass=g=10"@,
        "treble=g=10"@,
        "bass=g=10,treble=g=10"@,
        "equalizer=f=1000:width_type=h:width=200:g=10"@,
        "equalizer=f=300:width_type=h:width=200:g=-10,equalizer=f=3000:width_type=h:width=200:g=-10"@,
        "bass=g=8,treble=g=5"@,
        "bass=g=5,treble=g=3,equalizer=f=500:width_type=h:width=200:g=3"@,
        "equalizer=f=2000:width_type=h:width=200:g=5,equalizer=f=4000:width_type=h:width=200:g=5,equalizer=f=8000:width_type=h:width=200:g=5"@,
        "bass=g=12,treble=g=8"@,
        "bass=g=12,equalizer=f=1000:width_type=h:width=200:g=-3"@,
    ]
}

/// The equalizer presets' names, in cycling order.
pub open spec fn eq_names() -> Seq<Seq<char>> {
    seq![
        "off"@,
        "bass+"@,
        "treble+"@,
        "rock"@,
        "vocal"@,
        "lofi"@,
        "pop"@,
        "jazz"@,
        "classical"@,
        "electronic"@,
        "hiphop"@,
    ]
}

/// How many equalizer presets there are.
pub const EQ_PRESET_COUNT: usize = 11;

/// The mpv audio filter of equalizer preset `i`.
pub fn eq_filter(i: usize) -> (out: &'static str)
    requires
        i < EQ_PRESET_COUNT,
    ensures
        out@ == eq_filters()[i as int],
{
    match i {
        0 => "",
        1 => "bass=g=10",
        2 => "treble=g=10",
        3 => "bass=g=10,treble=g=10",
        4 => "equalizer=f=1000:width_type=h:width=200:g=10",
        5 => "equalizer=f=300:width_type=h:width=200:g=-10,equalizer=f=3000:width_type=h:width=200:g=-10",
        6 => "bass=g=8,treble=g=5",
        7 => "bass=g=5,treble=g=3,equalizer=f=500:width_type=h:width=200:g=3",
        8 => "equalizer=f=2000:width_type=h:width=200:g=5,equalizer=f=4000:width_type=h:width=200:g=5,equalizer=f=8000:width_type=h:width=200:g=5",
        9 => "bass=g=12,treble=g=8",
        _ => "bass=g=12,equalizer=f=1000:width_type=h:width=200:g=-3",
    }
}

/// The name of equalizer preset `i`.
pub fn eq_name(i: usize) -> (out: &'static str)
    requires
        i < EQ_PRESET_COUNT,
    ensures
        out@ == eq_names()[i as int],
{
    match i {
        0 => "off",
        1 => "bass+",
        2 => "treble+",
        3 => "rock",
        4 => "vocal",
        5 => "lofi",
        6 => "pop",
        7 => "jazz",
        8 => "classical",
        9 => "electronic",
        _ => "hiphop",
    }
}

// ---------------------------------------------------------------------------
// The library browser
// ---------------------------------------------------------------------------

/// A line of the library: a folder, or a playable track.
#[derive(Debug)]
pub enum LibraryEntry {
    Folder(String),
    Track(Track),
}

impl LibraryEntry {
    /// An equal copy of the entry.
    pub fn duplicate(&self) -> (out: LibraryEntry)
        ensures
            out == *self,
    {
        match self {
            LibraryEntry::Folder(n) => LibraryEntry::Folder(n.clone()),
            LibraryEntry::Track(t) => LibraryEntry::Track(t.duplicate()),
        }
    }

    /// The text a filter is matched against: a folder's name, a track's title.
    pub open spec fn label(self) -> Seq<char> {
        match self {
            LibraryEntry::Folder(n) => n@,
            LibraryEntry::Track(t) => t.title@,
        }
    }
}

/// One item of a folder listing, as read from the disk.
#[derive(Debug)]
pub struct DirItem {
    /// The file name.
    pub name: String,
    /// The full path.
    pub path: String,
    /// Whether it is a folder.
    pub is_dir: bool,
}

/// The file extensions the library plays.
pub open spec fn audio_exts() -> Seq<Seq<char>> {
    seq!["mp3"@, "flac"@, "wav"@, "ogg"@, "opus"@, "m4a"@, "aac"@, "wma"@]
}

/// Whether a lower-case extension is one the library plays.
pub fn is_audio_ext(ext: &str) -> (b: bool)
    ensures
        b == audio_exts().contains(ext@),
{
    let r = str_eq(ext, "mp3") || str_eq(ext, "flac") || str_eq(ext, "wav") || str_eq(ext, "ogg")
        || str_eq(ext, "opus") || str_eq(ext, "m4a") || str_eq(ext, "aac") || str_eq(ext, "wma");
    proof {
        if audio_exts().contains(ext@) {
            let k = choose|k: int| 0 <= k < audio_exts().len() && audio_exts()[k] == ext@;
            assert(0 <= k < 8);
        }
        if r {
            if ext@ == "mp3"@ { assert(audio_exts()[0] == ext@); }
            if ext@ == "flac"@ { assert(audio_exts()[1] == ext@); }
            if ext@ == "wav"@ { assert(audio_exts()[2] == ext@); }
            if ext@ == "ogg"@ { assert(audio_exts()[3] == ext@); }
            if ext@ == "opus"@ { assert(audio_exts()[4] == ext@); }
            if ext@ == "m4a"@ { assert(audio_exts()[5] == ext@); }
            if ext@ == "aac"@ { assert(audio_exts()[6] == ext@); }
            if ext@ == "wma"@ { assert(audio_exts()[7] == ext@); }
        }
    }
    r
}

/// An item of a listing is a playable track: a file whose extension, in lower case,
/// the library plays.
pub open spec fn is_track_item(it: DirItem) -> bool {
    !it.is_dir && path_ext(it.path@) is Some && audio_exts().contains(unicode_lower(path_ext(it.path@)->Some_0))
}

/// The title of a track item: its file stem, else its file name.
pub open spec fn item_title(it: DirItem) -> Seq<char> {
    match path_stem(it.path@) {
        Some(s) => s,
        None => it.name@,
    }
}

/// The names of the folders in a listing, in listing order.
pub open spec fn folder_names(items: Seq<DirItem>) -> Seq<Seq<char>>
    decreases items.len(),
{
    if items.len() == 0 {
        Seq::empty()
    } else if items.last().is_dir {
        folder_names(items.drop_last()).push(items.last().name@)
    } else {
        folder_names(items.drop_last())
    }
}

/// The tracks of a listing, in listing order, each as its title and path.
pub open spec fn track_items(items: Seq<DirItem>) -> Seq<(Seq<char>, Seq<char>)>
    decreases items.len(),
{
    if items.len() == 0 {
        Seq::empty()
    } else if is_track_item(items.last()) {
        track_items(items.drop_last()).push((item_title(items.last()), items.last().path@))
    } else {
        track_items(items.drop_last())
    }
}

/// A track as its title and path.
pub open spec fn track_view(t: Track) -> (Seq<char>, Seq<char>) {
    (t.title@, t.path@)
}

/// No track's lower-case title comes before that of the track ahead of it.
pub open spec fn titles_in_order(ts: Seq<(Seq<char>, Seq<char>)>) -> bool {
    forall|i: int, j: int| 0 <= i < j < ts.len() ==> !text_lt(unicode_lower((#[trigger] ts[j]).0), unicode_lower((#[trigger] ts[i]).0))
}


/// `out` is `src` rearranged: `perm` gives for each place of `out` the place of `src`
/// it came from, each place of `src` used once, and items whose lower-case titles are
/// equal keep the order they had in `src`.
pub open spec fn ties_kept(out: Seq<(Seq<char>, Seq<char>)>, src: Seq<(Seq<char>, Seq<char>)>, perm: Seq<int>) -> bool {
    &&& perm.len() == out.len()
    &&& out.len() == src.len()
    &&& forall|k: int| 0 <= k < perm.len() ==> 0 <= #[trigger] perm[k] < src.len() && out[k] == src[perm[k]]
    &&& forall|k: int, l: int| 0 <= k < l < perm.len() ==> #[trigger] perm[k] != #[trigger] perm[l]
        && (unicode_lower(out[k].0) == unicode_lower(out[l].0) ==> perm[k] < perm[l])
}

/// A track's title and path, or nothing for a folder.
pub open spec fn entry_track(e: LibraryEntry) -> (Seq<char>, Seq<char>) {
    match e {
        LibraryEntry::Track(t) => track_view(t),
        LibraryEntry::Folder(n) => (n@, Seq::empty()),
    }
}

/// The library lines for a folder listing: its folders by name in sorted order, then
/// its playable tracks ordered by lower-case title; a track is titled by its file stem
/// and has no artist or album.
pub open spec fn listing_matches(items: Seq<DirItem>, out: Seq<LibraryEntry>) -> bool {
    let nf = folder_names(items).len() as int;
    let folders = out.take(nf).map_values(|e: LibraryEntry| e.label());
    let tracks = out.skip(nf).map_values(|e: LibraryEntry| entry_track(e));
    &&& out.len() == nf + track_items(items).len()
    &&& forall|i: int| 0 <= i < nf ==> (#[trigger] out[i]) is Folder
    &&& forall|i: int| nf <= i < out.len() ==> ((#[trigger] out[i]) matches LibraryEntry::Track(t) && t.artist is None && t.album is None)
    &&& sorted_texts(folders)
    &&& folders.to_multiset() == folder_names(items).to_multiset()
    &&& titles_in_order(tracks)
    &&& tracks.to_multiset() == track_items(items).to_multiset()
    &&& exists|perm: Seq<int>| ties_kept(tracks, track_items(items), perm)
}

/// Puts a track into a list ordered by lower-case title, after those with the same key;
/// `src` and `perm` say where the tracks already placed came from.
fn insert_track(
    tracks: &mut Vec<Track>,
    keys: &mut Vec<String>,
    t: Track,
    Ghost(src): Ghost<Seq<(Seq<char>, Seq<char>)>>,
    Ghost(perm): Ghost<Seq<int>>,
) -> (np: Ghost<Seq<int>>)
    requires
        ties_kept(old(tracks)@.map_values(|t: Track| track_view(t)), src, perm),
        old(keys)@.len() == old(tracks)@.len(),
        forall|i: int| 0 <= i < old(keys)@.len() ==> (#[trigger] old(keys)@[i])@ == unicode_lower(old(tracks)@[i].title@),
        titles_in_order(old(tracks)@.map_values(|t: Track| track_view(t))),
        forall|i: int| 0 <= i < old(tracks)@.len() ==> (#[trigger] old(tracks)@[i]).artist is None && old(tracks)@[i].album is None,
        t.artist is None && t.album is None,
    ensures
        final(keys)@.len() == final(tracks)@.len(),
        forall|i: int| 0 <= i < final(keys)@.len() ==> (#[trigger] final(keys)@[i])@ == unicode_lower(final(tracks)@[i].title@),
        titles_in_order(final(tracks)@.map_values(|t: Track| track_view(t))),
        forall|i: int| 0 <= i < final(tracks)@.len() ==> (#[trigger] final(tracks)@[i]).artist is None && final(tracks)@[i].album is None,
        final(tracks)@.map_values(|t: Track| track_view(t)).to_multiset() == old(tracks)@.map_values(|t: Track| track_view(t)).to_multiset().insert(track_view(t)),
        ties_kept(final(tracks)@.map_values(|t: Track| track_view(t)), src.push(track_view(t)), np@),
{
    let ghost old_t = tracks@;
    let ghost old_v = tracks@.map_values(|t: Track| track_view(t));
    let key = to_lowercase(t.title.as_str());
    let mut p: usize = 0;
    while p < keys.len() && !text_less(key.as_str(), keys[p].as_str())
        invariant
            p <= keys.len(),
            keys@.len() == tracks@.len(),
            tracks@ == old_t,
            forall|i: int| 0 <= i < keys@.len() ==> (#[trigger] keys@[i])@ == unicode_lower(old_t[i].title@),
            forall|k: int| 0 <= k < p ==> !text_lt(key@, unicode_lower((#[trigger] old_v[k]).0)),
            old_v == old_t.map_values(|t: Track| track_view(t)),
        decreases keys.len() - p,
    {
        assert(old_v[p as int].0 == old_t[p as int].title@);
        p += 1;
    }
    let ghost it = track_view(t);
    proof {
        if p < keys.len() {
            assert(old_v[p as int].0 == old_t[p as int].title@);
        }
    }
    let ghost kv = key@;
    tracks.insert(p, t);
    keys.insert(p, key);
    let ghost nv = old_v.insert(p as int, it);
    assert(tracks@.map_values(|t: Track| track_view(t)) =~= nv);
    assert forall|i: int| 0 <= i < keys@.len() implies (#[trigger] keys@[i])@ == unicode_lower(tracks@[i].title@) by {
        if i < p {
        } else if i == p {
        } else {
            assert(keys@[i] == old(keys)@[i - 1]);
            assert(tracks@[i] == old_t[i - 1]);
        }
    }
    assert forall|i: int| 0 <= i < tracks@.len() implies (#[trigger] tracks@[i]).artist is None && tracks@[i].album is None by {
        if i > p {
            assert(tracks@[i] == old_t[i - 1]);
        }
    }
    assert forall|i: int, j: int| 0 <= i < j < nv.len() implies !text_lt(unicode_lower((#[trigger] nv[j]).0), unicode_lower((#[trigger] nv[i]).0)) by {
        if j < p {
        } else if j == p {
            assert(nv[i] == old_v[i]);
        } else if i < p {
            assert(nv[i] == old_v[i]);
            assert(nv[j] == old_v[j - 1]);
        } else if i == p {
            assert(nv[j] == old_v[j - 1]);
            let a = unicode_lower(old_v[j - 1].0);
            let b = unicode_lower(old_v[p as int].0);
            lemma_text_lt_total(a, kv);
            if text_lt(a, kv) {
                lemma_text_lt_total(b, kv);
                if j - 1 > p {
                    lemma_text_lt_trans(a, kv, b);
                }
            }
        } else {
            assert(nv[i] == old_v[i - 1]);
            assert(nv[j] == old_v[j - 1]);
        }
    }
    let ghost m = src.len() as int;
    let ghost nsrc = src.push(it);
    let ghost nperm = perm.insert(p as int, m);
    assert forall|k: int| 0 <= k < nperm.len() implies 0 <= #[trigger] nperm[k] < nsrc.len() && nv[k] == nsrc[nperm[k]] by {
        if k < p {
            assert(nperm[k] == perm[k]);
            assert(nv[k] == old_v[k]);
        } else if k > p {
            assert(nperm[k] == perm[k - 1]);
            assert(nv[k] == old_v[k - 1]);
        }
    }
    assert forall|k: int, l: int| 0 <= k < l < nperm.len() implies #[trigger] nperm[k] != #[trigger] nperm[l]
        && (unicode_lower(nv[k].0) == unicode_lower(nv[l].0) ==> nperm[k] < nperm[l]) by {
        if l < p {
            assert(nperm[k] == perm[k] && nperm[l] == perm[l]);
            assert(nv[k] == old_v[k] && nv[l] == old_v[l]);
        } else if l == p {
            assert(nperm[k] == perm[k]);
        } else if k < p {
            assert(nperm[k] == perm[k] && nperm[l] == perm[l - 1]);
            assert(nv[k] == old_v[k] && nv[l] == old_v[l - 1]);
        } else if k == p {
            assert(nperm[l] == perm[l - 1]);
            assert(nv[l] == old_v[l - 1]);
            if unicode_lower(nv[k].0) == unicode_lower(nv[l].0) {
                let pk = unicode_lower(old_v[p as int].0);
                assert(pk == old(keys)@[p as int]@);
                assert(text_lt(kv, pk));
                lemma_text_lt_total(kv, kv);
                if l - 1 > p {
                    assert(!text_lt(unicode_lower(old_v[l - 1].0), unicode_lower(old_v[p as int].0)));
                }
                assert(false);
            }
        } else {
            assert(nperm[k] == perm[k - 1] && nperm[l] == perm[l - 1]);
            assert(nv[k] == old_v[k - 1] && nv[l] == old_v[l - 1]);
        }
    }
    Ghost(nperm)
}

/// The library lines for a folder listing.
pub fn listing_entries(items: &Vec<DirItem>) -> (out: Vec<LibraryEntry>)
    ensures
        listing_matches(items@, out@),
{
    let mut folders: Vec<String> = Vec::new();
    let mut tracks: Vec<Track> = Vec::new();
    let mut keys: Vec<String> = Vec::new();
    let mut i: usize = 0;
    let ghost mut perm: Seq<int> = Seq::empty();
    assert(items@.take(0) =~= Seq::<DirItem>::empty());
    assert(views(folders@) =~= Seq::<Seq<char>>::empty());
    assert(tracks@.map_values(|t: Track| track_view(t)) =~= Seq::<(Seq<char>, Seq<char>)>::empty());
    while i < items.len()
        invariant
            i <= items.len(),
            sorted_texts(views(folders@)),
            views(folders@).to_multiset() == folder_names(items@.take(i as int)).to_multiset(),
            keys@.len() == tracks@.len(),
            forall|k: int| 0 <= k < keys@.len() ==> (#[trigger] keys@[k])@ == unicode_lower(tracks@[k].title@),
            titles_in_order(tracks@.map_values(|t: Track| track_view(t))),
            forall|k: int| 0 <= k < tracks@.len() ==> (#[trigger] tracks@[k]).artist is None && tracks@[k].album is None,
            tracks@.map_values(|t: Track| track_view(t)).to_multiset() == track_items(items@.take(i as int)).to_multiset(),
            ties_kept(tracks@.map_values(|t: Track| track_view(t)), track_items(items@.take(i as int)), perm),
        decreases items.len() - i,
    {
        let it = &items[i];
        assert(items@.take(i + 1).drop_last() =~= items@.take(i as int));
        assert(items@.take(i + 1).last() == items@[i as int]);
        if it.is_dir {
            crate::firecore::store::insert_ordered(&mut folders, it.name.clone());
        } else {
            match file_extension(it.path.as_str()) {
                Some(e) => {
                    let l = to_lowercase(e.as_str());
                    if is_audio_ext(l.as_str()) {
                        let title = match file_stem(it.path.as_str()) {
                            Some(s) => s,
                            None => it.name.clone(),
                        };
                        let np = insert_track(&mut tracks, &mut keys, Track::new(title, it.path.clone()),
                            Ghost(track_items(items@.take(i as int))), Ghost(perm));
                        proof {
                            perm = np@;
                        }
                    }
                },
                None => {},
            }
        }
        i += 1;
    }
    assert(items@.take(i as int) =~= items@);
    let mut out: Vec<LibraryEntry> = Vec::new();
    let mut k: usize = 0;
    while k < folders.len()
        invariant
            k <= folders.len(),
            out@.len() == k,
            forall|j: int| 0 <= j < k ==> (#[trigger] out@[j]) == LibraryEntry::Folder(folders@[j]),
        decreases folders.len() - k,
    {
        out.push(LibraryEntry::Folder(folders[k].clone()));
        k += 1;
    }
    let nf = folders.len();
    let mut k: usize = 0;
    while k < tracks.len()
        invariant
            nf == folders@.len(),
            k <= tracks.len(),
            out@.len() == nf + k,
            forall|j: int| 0 <= j < nf ==> (#[trigger] out@[j]) == LibraryEntry::Folder(folders@[j]),
            forall|j: int| 0 <= j < k ==> (#[trigger] out@[nf + j]) == LibraryEntry::Track(tracks@[j]),
        decreases tracks.len() - k,
    {
        out.push(LibraryEntry::Track(tracks[k].duplicate()));
        k += 1;
    }
    proof {
        let fn_ = folder_names(items@);
        assert(views(folders@).to_multiset().len() == views(folders@).len());
        assert(fn_.to_multiset().len() == fn_.len());
        assert(nf == fn_.len());
        assert(out@.take(nf as int).map_values(|e: LibraryEntry| e.label()) =~= views(folders@));
        let sk = out@.skip(nf as int).map_values(|e: LibraryEntry| entry_track(e));
        let tv0 = tracks@.map_values(|t: Track| track_view(t));
        assert forall|j: int| 0 <= j < tv0.len() implies sk[j] == tv0[j] by {
            assert(out@.skip(nf as int)[j] == out@[nf + j]);
            assert(out@[nf + j] == LibraryEntry::Track(tracks@[j]));
        }
        assert(sk =~= tv0);
        let tv = tracks@.map_values(|t: Track| track_view(t));
        assert(tv.to_multiset().len() == tv.len());
        assert(track_items(items@).to_multiset().len() == track_items(items@).len());
        assert(ties_kept(sk, track_items(items@), perm));
        assert forall|j: int| nf <= j < out@.len() implies ((#[trigger] out@[j]) matches LibraryEntry::Track(t) && t.artist is None && t.album is None) by {
            assert(out@[nf + (j - nf)] == LibraryEntry::Track(tracks@[j - nf]));
        }
    }
    out
}


/// A path shown with the home folder as `~`.
pub open spec fn abbreviated(path: Seq<char>, home: Option<Seq<char>>) -> Seq<char> {
    match home {
        Some(h) => if path == h {
            "~"@
        } else if has_prefix(path, h + "/"@) {
            "~/"@ + path.skip(h.len() + 1int)
        } else {
            path
        },
        None => path,
    }
}

/// A path shown with the home folder as `~`.
pub fn abbreviate_home_in(path: &str, home: &Option<String>) -> (out: String)
    ensures
        out@ == abbreviated(path@, opt_chars(*home)),
{
    match home {
        Some(h) => {
            if str_eq(path, h.as_str()) {
                return String::from_str("~");
            }
            let mut hs = h.clone();
            hs.append("/");
            proof {
                reveal_strlit("/");
            }
            if starts_with(path, hs.as_str()) {
                let v = chars_of(path);
                let mut out = String::from_str("~/");
                let rest = string_from(&v, hs.as_str().unicode_len(), v.len());
                out.append(rest.as_str());
                assert(v@.subrange(hs@.len() as int, v@.len() as int) =~= path@.skip(h@.len() + 1int));
                return out;
            }
            String::from_str(path)
        },
        None => String::from_str(path),
    }
}

/// The current folder as the library shows it: the root abbreviated, a folder under
/// the root by its path below it, anything else abbreviated.
pub open spec fn shown_path(root: Seq<char>, cur: Seq<char>, home: Option<Seq<char>>) -> Seq<char> {
    if cur == root {
        abbreviated(root, home)
    } else if has_prefix(cur, root) {
        crate::text::trim_start_char(cur.skip(root.len() as int), '/')
    } else {
        abbreviated(cur, home)
    }
}

/// An entry is shown under a filter: any entry when the filter is blank, else one whose
/// lower-case name or title holds the lower-case filter.
pub open spec fn entry_shown(e: LibraryEntry, filter: Seq<char>) -> bool {
    trim(filter).len() == 0 || contains_seq(unicode_lower(e.label()), unicode_lower(filter))
}

/// The positions of the entries shown under a filter, among the first `k`.
pub open spec fn shown_indices(entries: Seq<LibraryEntry>, filter: Seq<char>, k: int) -> Seq<usize>
    decreases k,
{
    if k <= 0 {
        Seq::empty()
    } else if entry_shown(entries[k - 1], filter) {
        shown_indices(entries, filter, k - 1).push((k - 1) as usize)
    } else {
        shown_indices(entries, filter, k - 1)
    }
}

/// The browser is at its root folder: the current folder and the root are the same
/// path.
pub open spec fn at_root(lib: LibraryState) -> bool {
    path_same(lib.current_dir@, lib.root_dir@)
}

/// Where going up leads from the current folder: nowhere at the root or when there is
/// no parent; else the parent when it is under the root or the root under it, else the
/// root itself.
pub open spec fn parent_target(root: Seq<char>, cur: Seq<char>) -> Option<Seq<char>> {
    if path_same(cur, root) || path_parent(cur) is None {
        None
    } else {
        let p = path_parent(cur)->Some_0;
        Some(if path_under(p, root) || path_under(root, p) {
            p
        } else {
            root
        })
    }
}

/// Where opening entry `idx` leads: into it when it is a folder.
pub open spec fn folder_target(cur: Seq<char>, entries: Seq<LibraryEntry>, idx: int) -> Option<Seq<char>> {
    if 0 <= idx < entries.len() && entries[idx] is Folder {
        Some(path_join(cur, entries[idx]->Folder_0@))
    } else {
        None
    }
}

/// The browser has moved to `dir` and forgotten its listing.
pub open spec fn moved_to(old_s: LibraryState, new_s: LibraryState, dir: Seq<char>) -> bool {
    &&& new_s.current_dir@ == dir
    &&& new_s.root_dir == old_s.root_dir
    &&& new_s.entries@.len() == 0
    &&& new_s.selected_idx == 0
    &&& new_s.filter@.len() == 0
}

/// The library browser: where it is rooted, where it is, what it lists.
#[derive(Debug)]
pub struct LibraryState {
    pub root_dir: String,
    pub current_dir: String,
    pub entries: Vec<LibraryEntry>,
    pub selected_idx: usize,
    pub filter: String,
}

impl LibraryState {
    /// A browser at `root`, listing nothing yet.
    pub fn with_root(root: String) -> (s: LibraryState)
        ensures
            s.root_dir == root,
            s.current_dir == root,
            s.entries@.len() == 0,
            s.selected_idx == 0,
            s.filter@.len() == 0,
    {
        LibraryState {
            root_dir: root.clone(),
            current_dir: root,
            entries: Vec::new(),
            selected_idx: 0,
            filter: String::new(),
        }
    }

    /// Forgets the listing before the current folder is read again.
    pub fn reset_listing(&mut self)
        ensures
            final(self).entries@.len() == 0,
            final(self).selected_idx == 0,
            final(self).filter@.len() == 0,
            final(self).root_dir == old(self).root_dir,
            final(self).current_dir == old(self).current_dir,
    {
        self.entries = Vec::new();
        self.selected_idx = 0;
        self.filter = String::new();
    }

    /// Lists the current folder from what was read of it.
    pub fn set_listing(&mut self, items: &Vec<DirItem>)
        ensures
            listing_matches(items@, final(self).entries@),
            final(self).selected_idx == 0,
            final(self).filter@.len() == 0,
            final(self).root_dir == old(self).root_dir,
            final(self).current_dir == old(self).current_dir,
    {
        self.reset_listing();
        self.entries = listing_entries(items);
    }

    /// Opens the selected folder: the current folder becomes it and the listing is
    /// forgotten, to be read again. Gives whether it did.
    pub fn enter_folder(&mut self) -> (moved: bool)
        ensures
            match folder_target(old(self).current_dir@, old(self).entries@, old(self).selected_idx as int) {
                Some(d) => moved && moved_to(*old(self), *final(self), d),
                None => !moved && *final(self) == *old(self),
            },
    {
        if self.selected_idx < self.entries.len() {
            let target = match &self.entries[self.selected_idx] {
                LibraryEntry::Folder(name) => Some(join_path(self.current_dir.as_str(), name.as_str())),
                LibraryEntry::Track(_) => None,
            };
            match target {
                Some(t) => {
                    self.current_dir = t;
                    self.reset_listing();
                    true
                },
                None => false,
            }
        } else {
            false
        }
    }

    /// Goes up one folder, never above the root (see `parent_target`). Gives whether it
    /// moved; the listing is then forgotten, to be read again.
    /// Whether the browser is at its root folder, the two compared as paths.
    pub fn is_at_root(&self) -> (b: bool)
        ensures
            b == at_root(*self),
    {
        same_path(self.current_dir.as_str(), self.root_dir.as_str())
    }

    pub fn go_to_parent(&mut self) -> (moved: bool)
        ensures
            match parent_target(old(self).root_dir@, old(self).current_dir@) {
                Some(d) => moved && moved_to(*old(self), *final(self), d),
                None => !moved && *final(self) == *old(self),
            },
    {
        if self.is_at_root() {
            return false;
        }
        match parent_dir(self.current_dir.as_str()) {
            Some(p) => {
                let keep = path_starts_with(p.as_str(), self.root_dir.as_str()) || path_starts_with(
                    self.root_dir.as_str(),
                    p.as_str(),
                );
                self.current_dir = if keep {
                    p
                } else {
                    self.root_dir.clone()
                };
                self.reset_listing();
                true
            },
            None => false,
        }
    }

    /// Roots the browser at a new folder and forgets the listing.
    pub fn change_root(&mut self, new_root: String)
        ensures
            final(self).root_dir == new_root,
            final(self).current_dir == new_root,
            final(self).entries@.len() == 0,
            final(self).selected_idx == 0,
            final(self).filter@.len() == 0,
    {
        self.root_dir = new_root.clone();
        self.current_dir = new_root;
        self.reset_listing();
    }

    /// The current folder as shown, given the home folder.
    pub fn displayed_path_in(&self, home: &Option<String>) -> (out: String)
        ensures
            out@ == shown_path(self.root_dir@, self.current_dir@, opt_chars(*home)),
    {
        let r = self.root_dir.as_str();
        let c = self.current_dir.as_str();
        if str_eq(c, r) {
            abbreviate_home_in(r, home)
        } else if starts_with(c, r) {
            let v = chars_of(c);
            let rest = string_from(&v, r.unicode_len(), v.len());
            assert(v@.subrange(r@.len() as int, v@.len() as int) =~= c@.skip(r@.len() as int));
            crate::text::trim_start_matching(rest.as_str(), '/')
        } else {
            abbreviate_home_in(c, home)
        }
    }

    /// The current folder as shown, with the user's home folder as `~`.
    pub fn displayed_path(&self) -> (out: String)
        ensures
            exists|h: Option<Seq<char>>| out@ == shown_path(self.root_dir@, self.current_dir@, h),
    {
        let home = home_dir();
        self.displayed_path_in(&home)
    }

    /// The positions of the entries the filter lets through, in order.
    pub fn visible_entries(&self) -> (out: Vec<usize>)
        ensures
            out@ == shown_indices(self.entries@, self.filter@, self.entries@.len() as int),
            forall|k: int| 0 <= k < out@.len() ==> #[trigger] out@[k] < self.entries@.len(),
    {
        let blank = is_blank_str(self.filter.as_str());
        let f = to_lowercase(self.filter.as_str());
        let mut out: Vec<usize> = Vec::new();
        let mut i: usize = 0;
        while i < self.entries.len()
            invariant
                i <= self.entries@.len(),
                blank == (trim(self.filter@).len() == 0),
                f@ == unicode_lower(self.filter@),
                out@ == shown_indices(self.entries@, self.filter@, i as int),
                forall|k: int| 0 <= k < out@.len() ==> #[trigger] out@[k] < i,
            decreases self.entries@.len() - i,
        {
            let shown = if blank {
                true
            } else {
                let l = match &self.entries[i] {
                    LibraryEntry::Folder(n) => to_lowercase(n.as_str()),
                    LibraryEntry::Track(t) => to_lowercase(t.title.as_str()),
                };
                contains(l.as_str(), f.as_str())
            };
            if shown {
                out.push(i);
            }
            i += 1;
        }
        out
    }
}

// ---------------------------------------------------------------------------
// Playlists
// ---------------------------------------------------------------------------

/// The track a playlist line stands for: titled by its file stem (else the whole line).
pub open spec fn playlist_track(line: Seq<char>) -> (Seq<char>, Seq<char>) {
    (
        match path_stem(line) {
            Some(s) => s,
            None => line,
        },
        line,
    )
}

/// The saved playlists, and the tracks of the one opened.
#[derive(Debug)]
pub struct PlaylistManager {
    pub playlists: Vec<String>,
    pub current_tracks: Vec<Track>,
    pub selected_idx: usize,
}

impl PlaylistManager {
    /// No playlists known, none open.
    pub fn new() -> (pm: PlaylistManager)
        ensures
            pm.playlists@.len() == 0,
            pm.current_tracks@.len() == 0,
            pm.selected_idx == 0,
    {
        PlaylistManager { playlists: Vec::new(), current_tracks: Vec::new(), selected_idx: 0 }
    }

    /// Learns the saved playlists from the entry names of the playlist folder.
    pub fn refresh(&mut self, entries: &Vec<String>)
        ensures
            sorted_texts(views(final(self).playlists@)),
            views(final(self).playlists@).to_multiset() == stems(views(entries@), ".m3u"@).to_multiset(),
            final(self).current_tracks == old(self).current_tracks,
            final(self).selected_idx == old(self).selected_idx,
    {
        proof {
            reveal_strlit(".m3u");
        }
        self.playlists = stem_names(entries, ".m3u");
    }

    /// Opens a playlist from its file's text (`None` when it could not be read: nothing
    /// is listed then).
    pub fn load_playlist(&mut self, content: Option<String>)
        ensures
            content is None ==> final(self).current_tracks@.len() == 0,
            content matches Some(c) ==> final(self).current_tracks@.map_values(|t: Track| track_view(t))
                == entries_of(lines(c@)).map_values(|l: Seq<char>| playlist_track(l)),
            forall|i: int| 0 <= i < final(self).current_tracks@.len() ==> (#[trigger] final(self).current_tracks@[i]).artist is None
                && final(self).current_tracks@[i].album is None,
            final(self).playlists == old(self).playlists,
            final(self).selected_idx == old(self).selected_idx,
    {
        self.current_tracks = Vec::new();
        match content {
            Some(c) => {
                let ls = parse_playlist(c.as_str());
                let ghost want = entries_of(lines(c@)).map_values(|l: Seq<char>| playlist_track(l));
                let mut i: usize = 0;
                while i < ls.len()
                    invariant
                        views(ls@) == entries_of(lines(c@)),
                        want == entries_of(lines(c@)).map_values(|l: Seq<char>| playlist_track(l)),
                        i <= ls.len(),
                        self.current_tracks@.map_values(|t: Track| track_view(t)) == want.take(i as int),
                        forall|k: int| 0 <= k < self.current_tracks@.len() ==> (#[trigger] self.current_tracks@[k]).artist is None
                            && self.current_tracks@[k].album is None,
                        self.playlists == old(self).playlists,
                        self.selected_idx == old(self).selected_idx,
                    decreases ls.len() - i,
                {
                    let line = ls[i].as_str();
                    let title = match file_stem(line) {
                        Some(s) => s,
                        None => String::from_str(line),
                    };
                    let ghost before = self.current_tracks@.map_values(|t: Track| track_view(t));
                    self.current_tracks.push(Track::new(title, String::from_str(line)));
                    proof {
                        assert(views(ls@)[i as int] == ls@[i as int]@);
                        assert(self.current_tracks@.map_values(|t: Track| track_view(t)) =~= before.push(playlist_track(ls@[i as int]@)));
                        assert(want.take(i + 1) =~= want.take(i as int).push(want[i as int]));
                    }
                    i += 1;
                }
                assert(want.take(i as int) =~= want);
            },
            None => {},
        }
    }

    /// How many lines the playlist tab lists: the open playlist's tracks, else the
    /// playlists.
    pub fn total_items(&self) -> (n: usize)
        ensures
            n == if self.current_tracks@.len() == 0 {
                self.playlists@.len()
            } else {
                self.current_tracks@.len()
            },
    {
        if self.current_tracks.len() == 0 {
            self.playlists.len()
        } else {
            self.current_tracks.len()
        }
    }
}

} // verus!
