//! Saved playlists and equalizer presets: which are there, and the playlist file format
//! (one path per line, `#` lines and blank lines ignored).
use vstd::prelude::*;
use crate::text::{
    chars_of, ends_with, has_prefix, has_suffix, is_blank_str, join_path, lines, lines_of,
    path_join, starts_with, string_from, text_less, text_lt, trim, views, lemma_text_lt_total,
    lemma_text_lt_trans, split_on, first_match, match_from, occurs_at, lemma_match_from_bounds,
    strip_cr, lemma_trim_start_len, lemma_trim_end_take, trim_start,
};

verus! {

broadcast use vstd::seq_lib::group_to_multiset_ensures;

/// No item comes before the one ahead of it (`text_lt` order, repeats allowed).
pub open spec fn sorted_texts(s: Seq<Seq<char>>) -> bool {
    forall|i: int, j: int| 0 <= i < j < s.len() ==> !text_lt(#[trigger] s[j], #[trigger] s[i])
}

/// `s` without every trailing repeat of `p` (`str::trim_end_matches` with a text).
pub open spec fn trim_end_text(s: Seq<char>, p: Seq<char>) -> Seq<char>
    decreases s.len(),
{
    if p.len() > 0 && has_suffix(s, p) {
        trim_end_text(s.take(s.len() - p.len()), p)
    } else {
        s
    }
}

/// `s` without every trailing repeat of the non-empty `p`.
pub fn trim_end_text_exec(s: &str, p: &str) -> (out: String)
    requires
        p@.len() > 0,
    ensures
        out@ == trim_end_text(s@, p@),
{
    let v = chars_of(s);
    let q = chars_of(p);
    let mut end: usize = v.len();
    assert(v@.take(v@.len() as int) =~= v@);
    loop
        invariant
            v@ == s@,
            q@ == p@,
            q@.len() > 0,
            end <= v.len(),
            trim_end_text(s@, p@) == trim_end_text(v@.take(end as int), p@),
        decreases end,
    {
        let t = string_from(&v, 0, end);
        assert(v@.subrange(0, end as int) =~= v@.take(end as int));
        if !ends_with(t.as_str(), p) {
            return t;
        }
        assert(v@.take(end as int).take(end - q@.len()) =~= v@.take(end - q@.len()));
        end = end - q.len();
    }
}

/// The names that end with `suffix`, without it (and its repeats), in listing order.
pub open spec fn stems(names: Seq<Seq<char>>, suffix: Seq<char>) -> Seq<Seq<char>>
    decreases names.len(),
{
    if names.len() == 0 {
        Seq::empty()
    } else {
        let before = stems(names.drop_last(), suffix);
        if has_suffix(names.last(), suffix) {
            before.push(trim_end_text(names.last(), suffix))
        } else {
            before
        }
    }
}

/// Puts `item` into a sorted list after the items equal to it.
pub fn insert_ordered(list: &mut Vec<String>, item: String)
    requires
        sorted_texts(views(old(list)@)),
    ensures
        sorted_texts(views(final(list)@)),
        views(final(list)@).to_multiset() == views(old(list)@).to_multiset().insert(item@),
{
    let ghost old_v = views(list@);
    let mut p: usize = 0;
    while p < list.len() && !text_less(item.as_str(), list[p].as_str())
        invariant
            p <= list.len(),
            views(list@) == old_v,
            forall|k: int| 0 <= k < p ==> !text_lt(item@, #[trigger] old_v[k]),
        decreases list.len() - p,
    {
        assert(old_v[p as int] == list@[p as int]@);
        p += 1;
    }
    let ghost it = item@;
    proof {
        if p < list.len() {
            assert(old_v[p as int] == list@[p as int]@);
        }
    }
    list.insert(p, item);
    let ghost nv = old_v.insert(p as int, it);
    assert(views(list@) =~= nv);
    assert forall|i: int, j: int| 0 <= i < j < nv.len() implies !text_lt(#[trigger] nv[j], #[trigger] nv[i]) by {
        if j < p {
        } else if j == p {
            assert(nv[i] == old_v[i]);
        } else if i < p {
            assert(nv[i] == old_v[i]);
            assert(nv[j] == old_v[j - 1]);
        } else if i == p {
            assert(nv[j] == old_v[j - 1]);
            lemma_text_lt_total(old_v[j - 1], it);
            if text_lt(old_v[j - 1], it) {
                lemma_text_lt_total(old_v[p as int], it);
                if j - 1 > p {
                    lemma_text_lt_trans(old_v[j - 1], it, old_v[p as int]);
                }
            }
        } else {
            assert(nv[i] == old_v[i - 1]);
            assert(nv[j] == old_v[j - 1]);
        }
    }
}

/// The names listed that end with `suffix`, without it, sorted (`list_stem_names`
/// on a directory's entry names).
pub fn stem_names(names: &Vec<String>, suffix: &str) -> (out: Vec<String>)
    requires
        suffix@.len() > 0,
    ensures
        sorted_texts(views(out@)),
        views(out@).to_multiset() == stems(views(names@), suffix@).to_multiset(),
{
    let mut out: Vec<String> = Vec::new();
    let mut i: usize = 0;
    let ghost nv = views(names@);
    assert(views(out@) =~= Seq::<Seq<char>>::empty());
    assert(nv.take(0) =~= Seq::<Seq<char>>::empty());
    while i < names.len()
        invariant
            suffix@.len() > 0,
            nv == views(names@),
            i <= names.len(),
            sorted_texts(views(out@)),
            views(out@).to_multiset() == stems(nv.take(i as int), suffix@).to_multiset(),
        decreases names.len() - i,
    {
        let name = names[i].as_str();
        assert(nv.take(i + 1).drop_last() =~= nv.take(i as int));
        assert(nv.take(i + 1).last() == name@);
        if ends_with(name, suffix) {
            let stem = trim_end_text_exec(name, suffix);
            insert_ordered(&mut out, stem);
        }
        i += 1;
    }
    assert(nv.take(i as int) =~= nv);
    out
}

/// The saved playlists, by name, given the entry names of the playlist folder.
pub fn list_playlists(entries: &Vec<String>) -> (out: Vec<String>)
    ensures
        sorted_texts(views(out@)),
        views(out@).to_multiset() == stems(views(entries@), ".m3u"@).to_multiset(),
{
    proof {
        reveal_strlit(".m3u");
    }
    stem_names(entries, ".m3u")
}

/// The saved equalizer presets, by name, given the entry names of the preset folder.
pub fn list_eq_presets(entries: &Vec<String>) -> (out: Vec<String>)
    ensures
        sorted_texts(views(out@)),
        views(out@).to_multiset() == stems(views(entries@), ".json"@).to_multiset(),
{
    proof {
        reveal_strlit(".json");
    }
    stem_names(entries, ".json")
}

/// Trailing repeats of a non-empty `p` all removed, the text no longer ends in `p`.
proof fn lemma_trim_end_text_no_suffix(s: Seq<char>, p: Seq<char>)
    requires
        p.len() > 0,
    ensures
        !has_suffix(trim_end_text(s, p), p),
    decreases s.len(),
{
    if has_suffix(s, p) {
        lemma_trim_end_text_no_suffix(s.take(s.len() - p.len()), p);
    }
}

/// No stem listed for a folder ends in the suffix that was taken off.
pub proof fn lemma_stems_lack_suffix(names: Seq<Seq<char>>, suffix: Seq<char>)
    requires
        suffix.len() > 0,
    ensures
        forall|i: int| 0 <= i < stems(names, suffix).len() ==> !has_suffix(#[trigger] stems(names, suffix)[i], suffix),
    decreases names.len(),
{
    if names.len() > 0 {
        lemma_stems_lack_suffix(names.drop_last(), suffix);
        lemma_trim_end_text_no_suffix(names.last(), suffix);
        let before = stems(names.drop_last(), suffix);
        let st = stems(names, suffix);
        assert forall|i: int| 0 <= i < st.len() implies !has_suffix(#[trigger] st[i], suffix) by {
            if i < before.len() {
                assert(st[i] == before[i]);
            }
        }
    }
}

/// A file saved as `name` with the suffix added, where `name` does not itself end in
/// the suffix, is listed under `name` once it is among the folder's entries: it is among
/// the stems, and so in any listing that holds the stems in another order.
pub proof fn lemma_saved_name_listed(names: Seq<Seq<char>>, name: Seq<char>, suffix: Seq<char>)
    requires
        suffix.len() > 0,
        names.contains(name + suffix),
        !has_suffix(name, suffix),
    ensures
        stems(names, suffix).contains(name),
        forall|out: Seq<Seq<char>>| #[trigger] out.to_multiset() == stems(names, suffix).to_multiset()
            ==> out.contains(name),
    decreases names.len(),
{
    lemma_saved_name_in_stems(names, name, suffix);
    assert forall|out: Seq<Seq<char>>| #[trigger] out.to_multiset() == stems(names, suffix).to_multiset()
        implies out.contains(name) by {
        stems(names, suffix).to_multiset_ensures();
        out.to_multiset_ensures();
        assert(stems(names, suffix).to_multiset().count(name) > 0);
        assert(out.to_multiset().count(name) > 0);
    }
}

/// The stems of a folder's entries hold `name` when `name` with the suffix is an entry.
proof fn lemma_saved_name_in_stems(names: Seq<Seq<char>>, name: Seq<char>, suffix: Seq<char>)
    requires
        suffix.len() > 0,
        names.contains(name + suffix),
        !has_suffix(name, suffix),
    ensures
        stems(names, suffix).contains(name),
    decreases names.len(),
{
    let f = name + suffix;
    if names.last() == f {
        assert(f.skip(f.len() - suffix.len()) =~= suffix);
        assert(f.take(f.len() - suffix.len()) =~= name);
        assert(trim_end_text(name, suffix) == name);
        assert(has_suffix(f, suffix));
        assert(trim_end_text(f, suffix) == trim_end_text(f.take(f.len() - suffix.len()), suffix));
        assert(trim_end_text(f, suffix) == name);
        let st = stems(names, suffix);
        assert(st[st.len() - 1] == name);
    } else {
        let k = choose|k: int| 0 <= k < names.len() && names[k] == f;
        assert(names.drop_last()[k] == f);
        lemma_saved_name_in_stems(names.drop_last(), name, suffix);
        let before = stems(names.drop_last(), suffix);
        let j = choose|j: int| 0 <= j < before.len() && before[j] == name;
        let st = stems(names, suffix);
        assert(st[j] == name);
    }
}

/// The file of the playlist `name` in `dir`: `dir/name.m3u`.
pub fn playlist_file(dir: &str, name: &str) -> (out: String)
    ensures
        out@ == path_join(dir@, name@ + ".m3u"@),
{
    let mut f = String::from_str(name);
    f.append(".m3u");
    join_path(dir, f.as_str())
}

/// The file of the equalizer preset `name` in `dir`: `dir/name.json`.
pub fn preset_file(dir: &str, name: &str) -> (out: String)
    ensures
        out@ == path_join(dir@, name@ + ".json"@),
{
    let mut f = String::from_str(name);
    f.append(".json");
    join_path(dir, f.as_str())
}

/// A playlist line that names a track: not a `#` comment and not blank.
pub open spec fn is_entry(line: Seq<char>) -> bool {
    !has_prefix(line, "#"@) && trim(line).len() > 0
}

/// A playlist line names a track exactly when it does not begin with `#` and is not
/// blank: a `#` elsewhere in the line is part of the path.
pub proof fn lemma_entry_lines(line: Seq<char>)
    ensures
        is_entry(line) <==> ((line.len() == 0 || line[0] != '#') && trim(line).len() > 0),
{
    reveal_strlit("#");
    assert("#"@.len() == 1 && "#"@[0] == '#');
    if line.len() > 0 {
        assert(line.take(1) =~= seq![line[0]]);
        if line[0] == '#' {
            assert(line.take(1) =~= "#"@);
        } else {
            assert(line.take(1)[0] != "#"@[0]);
        }
    }
}

/// The lines that name tracks, in order.
pub open spec fn entries_of(ls: Seq<Seq<char>>) -> Seq<Seq<char>>
    decreases ls.len(),
{
    if ls.len() == 0 {
        Seq::empty()
    } else if is_entry(ls.last()) {
        entries_of(ls.drop_last()).push(ls.last())
    } else {
        entries_of(ls.drop_last())
    }
}

/// The tracks a playlist file lists, in order.
pub fn parse_playlist(content: &str) -> (out: Vec<String>)
    ensures
        views(out@) == entries_of(lines(content@)),
{
    let ls = lines_of(content);
    let ghost lv = views(ls@);
    let mut out: Vec<String> = Vec::new();
    let mut i: usize = 0;
    assert(lv.take(0) =~= Seq::<Seq<char>>::empty());
    assert(views(out@) =~= Seq::<Seq<char>>::empty());
    while i < ls.len()
        invariant
            lv == views(ls@),
            i <= ls.len(),
            views(out@) == entries_of(lv.take(i as int)),
        decreases ls.len() - i,
    {
        let line = ls[i].as_str();
        assert(lv.take(i + 1).drop_last() =~= lv.take(i as int));
        assert(lv.take(i + 1).last() == line@);
        if !starts_with(line, "#") && !is_blank_str(line) {
            let ghost before = views(out@);
            out.push(String::from_str(line));
            assert(views(out@) =~= before.push(line@));
        }
        i += 1;
    }
    assert(lv.take(i as int) =~= lv);
    out
}

/// A playlist file's text: each path on a line of its own.
pub open spec fn playlist_text(paths: Seq<Seq<char>>) -> Seq<char>
    decreases paths.len(),
{
    if paths.len() == 0 {
        Seq::empty()
    } else {
        playlist_text(paths.drop_last()) + paths.last() + seq!['\n']
    }
}

/// The text of a playlist file listing `paths`.
pub fn playlist_content(paths: &Vec<String>) -> (out: String)
    ensures
        out@ == playlist_text(views(paths@)),
{
    let mut out = String::new();
    let mut i: usize = 0;
    let ghost pv = views(paths@);
    assert(pv.take(0) =~= Seq::<Seq<char>>::empty());
    while i < paths.len()
        invariant
            pv == views(paths@),
            i <= paths.len(),
            out@ == playlist_text(pv.take(i as int)),
        decreases paths.len() - i,
    {
        out.append(paths[i].as_str());
        out.append("\n");
        proof {
            reveal_strlit("\n");
            assert(pv.take(i + 1).drop_last() =~= pv.take(i as int));
            assert(pv.take(i + 1).last() == paths@[i as int]@);
        }
        i += 1;
    }
    assert(pv.take(i as int) =~= pv);
    out
}


/// A path a playlist file can hold and give back: on one line, not a comment, not
/// blank, and not ending in a carriage return.
pub open spec fn storable(path: Seq<char>) -> bool {
    !path.contains('\n') && is_entry(path) && !(path.len() > 0 && path.last() == '\r')
}

/// The first newline of `s` is at `k`, searching from any `j` up to `k`.
proof fn lemma_first_newline(s: Seq<char>, k: int, j: int)
    requires
        0 <= j <= k < s.len(),
        s[k] == '\n',
        forall|i: int| 0 <= i < k ==> s[i] != '\n',
    ensures
        match_from(s, seq!['\n'], j) == k,
    decreases k - j,
{
    if j < k {
        assert(!occurs_at(s, seq!['\n'], j)) by {
            if occurs_at(s, seq!['\n'], j) {
                assert(s.subrange(j, j + 1)[0] == s[j]);
            }
        }
        lemma_first_newline(s, k, j + 1);
    } else {
        assert(s.subrange(k, k + 1) =~= seq!['\n']);
    }
}

/// A playlist text starts with its first path and a newline.
proof fn lemma_text_front(paths: Seq<Seq<char>>)
    requires
        paths.len() > 0,
    ensures
        playlist_text(paths) == paths[0] + seq!['\n'] + playlist_text(paths.skip(1)),
    decreases paths.len(),
{
    if paths.len() == 1 {
        assert(paths.drop_last() =~= Seq::<Seq<char>>::empty());
        assert(paths.skip(1) =~= Seq::<Seq<char>>::empty());
        assert(playlist_text(paths.drop_last()) == Seq::<char>::empty());
        assert(playlist_text(paths.skip(1)) == Seq::<char>::empty());
        assert(paths.last() == paths[0]);
        assert(playlist_text(paths) =~= paths[0] + seq!['\n']);
    } else {
        lemma_text_front(paths.drop_last());
        assert(paths.drop_last().skip(1) =~= paths.skip(1).drop_last());
        assert(paths.skip(1).last() == paths.last());
        assert(paths.drop_last()[0] == paths[0]);
        assert(playlist_text(paths) =~= paths[0] + seq!['\n'] + playlist_text(paths.skip(1)));
    }
}

/// Splitting a playlist text at newlines gives its paths and an empty last piece.
proof fn lemma_text_split(paths: Seq<Seq<char>>)
    requires
        forall|i: int| 0 <= i < paths.len() ==> !(#[trigger] paths[i]).contains('\n'),
    ensures
        split_on(playlist_text(paths), seq!['\n']) == paths.push(Seq::<char>::empty()),
    decreases paths.len(),
{
    let nl = seq!['\n'];
    if paths.len() == 0 {
        assert(match_from(Seq::<char>::empty(), nl, 0) == -1);
        assert(split_on(Seq::<char>::empty(), nl) =~= seq![Seq::<char>::empty()]);
        assert(paths.push(Seq::<char>::empty()) =~= seq![Seq::<char>::empty()]);
    } else {
        let rest = paths.skip(1);
        assert forall|i: int| 0 <= i < rest.len() implies !(#[trigger] rest[i]).contains('\n') by {
            assert(rest[i] == paths[i + 1]);
        }
        lemma_text_split(rest);
        lemma_text_front(paths);
        let t = playlist_text(paths);
        let p0 = paths[0];
        let k = p0.len() as int;
        assert(t[k] == '\n');
        assert forall|i: int| 0 <= i < k implies t[i] != '\n' by {
            assert(t[i] == p0[i]);
            if p0[i] == '\n' {
                assert(p0.contains('\n'));
            }
        }
        lemma_first_newline(t, k, 0);
        assert(t.take(k) =~= p0);
        assert(t.skip(k + 1) =~= playlist_text(rest));
        assert(paths.push(Seq::<char>::empty()) =~= seq![p0] + rest.push(Seq::<char>::empty()));
    }
}

/// Every path is kept when all are entries.
proof fn lemma_all_entries(ls: Seq<Seq<char>>)
    requires
        forall|i: int| 0 <= i < ls.len() ==> is_entry(#[trigger] ls[i]),
    ensures
        entries_of(ls) == ls,
    decreases ls.len(),
{
    if ls.len() > 0 {
        let d = ls.drop_last();
        assert forall|i: int| 0 <= i < d.len() implies is_entry(#[trigger] d[i]) by {
            assert(d[i] == ls[i]);
        }
        lemma_all_entries(d);
        assert(d.push(ls.last()) =~= ls);
    }
}

/// Every path that is on one line, does not begin with `#`, is not blank and does not
/// end in a carriage return comes back from a saved playlist file as it was, in order:
/// a `#` inside a path is kept.
pub proof fn lemma_paths_survive_saving(paths: Seq<Seq<char>>)
    requires
        forall|i: int| 0 <= i < paths.len() ==> {
            let p = #[trigger] paths[i];
            &&& !p.contains('\n')
            &&& p[0] != '#'
            &&& trim(p).len() > 0
            &&& p.last() != '\r'
        },
    ensures
        entries_of(lines(playlist_text(paths))) == paths,
{
    assert forall|i: int| 0 <= i < paths.len() implies storable(#[trigger] paths[i]) by {
        lemma_entry_lines(paths[i]);
        lemma_trim_start_len(paths[i]);
        lemma_trim_end_take(trim_start(paths[i]));
    }
    lemma_playlist_roundtrip(paths);
}

/// Loading a playlist file that was saved with `playlist_content` gives back the same
/// paths, in the same order, for paths that a playlist file can hold.
pub proof fn lemma_playlist_roundtrip(paths: Seq<Seq<char>>)
    requires
        forall|i: int| 0 <= i < paths.len() ==> storable(#[trigger] paths[i]),
    ensures
        entries_of(lines(playlist_text(paths))) == paths,
{
    assert forall|i: int| 0 <= i < paths.len() implies !(#[trigger] paths[i]).contains('\n') by {
        assert(storable(paths[i]));
    }
    lemma_text_split(paths);
    let t = playlist_text(paths);
    if paths.len() > 0 {
        assert(t == playlist_text(paths.drop_last()) + paths.last() + seq!['\n']);
        assert(t.last() == '\n');
    }
    let kept = paths.push(Seq::<char>::empty()).drop_last();
    assert(kept =~= paths);
    assert(kept.map_values(|l: Seq<char>| strip_cr(l)) =~= paths) by {
        assert forall|i: int| 0 <= i < paths.len() implies strip_cr(paths[i]) == paths[i] by {
            assert(storable(paths[i]));
        }
    }
    assert forall|i: int| 0 <= i < paths.len() implies is_entry(#[trigger] paths[i]) by {
        assert(storable(paths[i]));
    }
    lemma_all_entries(paths);
}

} // verus!
