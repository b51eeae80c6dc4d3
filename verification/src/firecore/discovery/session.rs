//! The decisions of an interactive search: which providers to ask, what the menu offers,
//! and what each answer leads to. The prompts, menus and playback are the caller's.
use vstd::prelude::*;
use crate::firecore::discovery::types::{playable_url, provider_table, providers, provider_view, SearchResult};
use crate::firecore::discovery::ytdl::{find_provider, provider_position};
use crate::text::{append_decimal, contains, contains_seq, decimal, first_char, lemma_char_from_bounds, string_from, chars_of, views};

verus! {

/// The providers a typed query names and the query left to send: `id:rest` with a
/// known provider id asks that provider for `rest`; anything else asks YouTube for the
/// whole query.
pub open spec fn query_target(query: Seq<char>) -> (Seq<Seq<char>>, Seq<char>) {
    let i = first_char(query, ':');
    if i >= 0 && provider_position(query.take(i)) >= 0 {
        (seq![query.take(i)], query.skip(i + 1))
    } else {
        (seq!["yt"@], query)
    }
}

/// Reads a `provider:query` prefix off a typed query.
pub fn split_provider_prefix(query: &str) -> (out: (Vec<String>, String))
    ensures
        views(out.0@) == query_target(query@).0,
        out.1@ == query_target(query@).1,
{
    let v = chars_of(query);
    let mut i: usize = 0;
    while i < v.len() && v[i] != ':'
        invariant
            v@ == query@,
            i <= v.len(),
            forall|j: int| 0 <= j < i ==> v@[j] != ':',
            first_char(v@, ':') == crate::text::char_from(v@, ':', i as int),
        decreases v.len() - i,
    {
        i += 1;
    }
    proof {
        lemma_char_from_bounds(v@, ':', 0);
    }
    if i < v.len() {
        let p = string_from(&v, 0, i);
        assert(v@.subrange(0, i as int) =~= v@.take(i as int));
        if find_provider(p.as_str()).is_some() {
            let rest = string_from(&v, i + 1, v.len());
            assert(v@.subrange(i + 1, v.len() as int) =~= v@.skip(i + 1));
            let mut ps: Vec<String> = Vec::new();
            let ghost pv = p@;
            ps.push(p);
            assert(views(ps@) =~= seq![pv]);
            return (ps, rest);
        }
    }
    let mut ps: Vec<String> = Vec::new();
    ps.push(String::from_str("yt"));
    assert(views(ps@) =~= seq!["yt"@]);
    (ps, String::from_str(query))
}

/// The provider picked from the provider menu: the first pick, or YouTube when nothing
/// was picked.
pub fn provider_from_choice(picks: &Vec<usize>) -> (out: String)
    requires
        picks@.len() > 0 ==> picks@[0] < provider_table().len(),
    ensures
        picks@.len() > 0 ==> out@ == provider_table()[picks@[0] as int].0,
        picks@.len() == 0 ==> out@ == "yt"@,
{
    if picks.len() > 0 {
        let table = providers();
        let p = &table[picks[0]];
        assert(provider_view(table@[picks@[0] as int]) == provider_table()[picks@[0] as int]);
        String::from_str(p.id)
    } else {
        String::from_str("yt")
    }
}

/// The labels of the provider menu, in order.
pub fn provider_labels() -> (out: Vec<String>)
    ensures
        out@.len() == provider_table().len(),
        forall|i: int| 0 <= i < out@.len() ==> (#[trigger] out@[i])@ == provider_table()[i].1,
{
    let table = providers();
    let mut out: Vec<String> = Vec::new();
    let mut i: usize = 0;
    while i < table.len()
        invariant
            table@.len() == provider_table().len(),
            forall|j: int| 0 <= j < table@.len() ==> provider_view(#[trigger] table@[j]) == provider_table()[j],
            i <= table.len(),
            out@.len() == i,
            forall|j: int| 0 <= j < i ==> (#[trigger] out@[j])@ == provider_table()[j].1,
        decreases table.len() - i,
    {
        assert(provider_view(table@[i as int]) == provider_table()[i as int]);
        out.push(String::from_str(table[i].label));
        i += 1;
    }
    out
}

/// What a menu line below the hits asks for.
#[derive(Debug)]
pub enum MenuAction {
    NextPage,
    PreviousPage,
    ChangeProvider,
    NewSearch,
}

/// The navigation lines offered below the hits on page `page`.
pub open spec fn menu_tail(page: nat) -> Seq<Seq<char>> {
    let prev = if page > 1 {
        seq!["[\u{2794} previous page]"@]
    } else {
        Seq::empty()
    };
    seq!["[\u{2794} next page]"@] + prev + seq!["[\u{2794} change provider]"@, "[\u{2794} new search]"@]
}

/// The navigation lines offered below the hits on page `page`.
pub fn results_menu_tail(page: usize) -> (out: Vec<String>)
    ensures
        views(out@) == menu_tail(page as nat),
{
    let mut out: Vec<String> = Vec::new();
    out.push(String::from_str("[\u{2794} next page]"));
    if page > 1 {
        out.push(String::from_str("[\u{2794} previous page]"));
    }
    out.push(String::from_str("[\u{2794} change provider]"));
    out.push(String::from_str("[\u{2794} new search]"));
    assert(views(out@) =~= menu_tail(page as nat));
    out
}

/// What a menu line asks for, read from its words.
pub open spec fn label_action(label: Seq<char>) -> Option<MenuAction> {
    if contains_seq(label, "next page"@) {
        Some(MenuAction::NextPage)
    } else if contains_seq(label, "previous page"@) {
        Some(MenuAction::PreviousPage)
    } else if contains_seq(label, "change provider"@) {
        Some(MenuAction::ChangeProvider)
    } else if contains_seq(label, "new search"@) {
        Some(MenuAction::NewSearch)
    } else {
        None
    }
}

/// What a menu line asks for.
pub fn menu_action(label: &str) -> (out: Option<MenuAction>)
    ensures
        out == label_action(label@),
{
    if contains(label, "next page") {
        Some(MenuAction::NextPage)
    } else if contains(label, "previous page") {
        Some(MenuAction::PreviousPage)
    } else if contains(label, "change provider") {
        Some(MenuAction::ChangeProvider)
    } else if contains(label, "new search") {
        Some(MenuAction::NewSearch)
    } else {
        None
    }
}

/// What the picks in the results menu amount to.
#[derive(Debug)]
pub struct Selection {
    /// The URLs of the picked hits that have one, in menu order.
    pub urls: Vec<String>,
    pub next_page: bool,
    pub prev_page: bool,
    pub switch_provider: bool,
    pub new_search: bool,
}

/// The URLs of the picked hits among the first `k` picks, skipping empty ones.
pub open spec fn picked_urls(results: Seq<SearchResult>, picks: Seq<usize>, k: int) -> Seq<Seq<char>>
    decreases k,
{
    if k <= 0 {
        Seq::empty()
    } else {
        let before = picked_urls(results, picks, k - 1);
        let idx = picks[k - 1] as int;
        if idx < results.len() && playable_url(results[idx]).len() > 0 {
            before.push(playable_url(results[idx]))
        } else {
            before
        }
    }
}

/// Some pick past the hits is a line asking for `a`.
pub open spec fn asks(items: Seq<Seq<char>>, n: int, picks: Seq<usize>, a: MenuAction) -> bool {
    exists|k: int| 0 <= k < picks.len() && picks[k] >= n && #[trigger] label_action(items[picks[k] as int]) == Some(a)
}

/// Reads the picks of the results menu: the hits come first in `items`, then the lines
/// below them.
pub fn read_selection(results: &Vec<SearchResult>, items: &Vec<String>, picks: &Vec<usize>) -> (out: Selection)
    requires
        results@.len() <= items@.len(),
        forall|k: int| 0 <= k < picks@.len() ==> #[trigger] picks@[k] < items@.len(),
    ensures
        views(out.urls@) == picked_urls(results@, picks@, picks@.len() as int),
        out.next_page == asks(views(items@), results@.len() as int, picks@, MenuAction::NextPage),
        out.prev_page == asks(views(items@), results@.len() as int, picks@, MenuAction::PreviousPage),
        out.switch_provider == asks(views(items@), results@.len() as int, picks@, MenuAction::ChangeProvider),
        out.new_search == asks(views(items@), results@.len() as int, picks@, MenuAction::NewSearch),
{
    let ghost n = results@.len() as int;
    let ghost its = views(items@);
    let mut urls: Vec<String> = Vec::new();
    let mut next_page = false;
    let mut prev_page = false;
    let mut switch_provider = false;
    let mut new_search = false;
    let mut k: usize = 0;
    assert(views(urls@) =~= Seq::<Seq<char>>::empty());
    while k < picks.len()
        invariant
            results@.len() <= items@.len(),
            n == results@.len(),
            its == views(items@),
            forall|j: int| 0 <= j < picks@.len() ==> #[trigger] picks@[j] < items@.len(),
            k <= picks.len(),
            views(urls@) == picked_urls(results@, picks@, k as int),
            next_page == (exists|j: int| 0 <= j < k && picks@[j] >= n && #[trigger] label_action(its[picks@[j] as int]) == Some(MenuAction::NextPage)),
            prev_page == (exists|j: int| 0 <= j < k && picks@[j] >= n && #[trigger] label_action(its[picks@[j] as int]) == Some(MenuAction::PreviousPage)),
            switch_provider == (exists|j: int| 0 <= j < k && picks@[j] >= n && #[trigger] label_action(its[picks@[j] as int]) == Some(MenuAction::ChangeProvider)),
            new_search == (exists|j: int| 0 <= j < k && picks@[j] >= n && #[trigger] label_action(its[picks@[j] as int]) == Some(MenuAction::NewSearch)),
        decreases picks.len() - k,
    {
        let idx = picks[k];
        if idx < results.len() {
            let url = results[idx].get_playable_url();
            if url.unicode_len() > 0 {
                let ghost before = views(urls@);
                let ghost u = url@;
                urls.push(url);
                assert(views(urls@) =~= before.push(u));
            }
        } else {
            assert(its[idx as int] == items@[idx as int]@);
            match menu_action(items[idx].as_str()) {
                Some(MenuAction::NextPage) => { next_page = true; },
                Some(MenuAction::PreviousPage) => { prev_page = true; },
                Some(MenuAction::ChangeProvider) => { switch_provider = true; },
                Some(MenuAction::NewSearch) => { new_search = true; },
                None => {},
            }
        }
        k += 1;
    }
    Selection { urls, next_page, prev_page, switch_provider, new_search }
}

/// Where the search goes after the results menu.
#[derive(Debug)]
pub enum SearchStep {
    /// Show this page of hits.
    Page(usize),
    /// Ask for another provider.
    ChangeProvider,
    /// Ask for another query.
    NewSearch,
    /// One hit was picked: offer to play or fetch it.
    ActOnOne(String),
    /// Fetch all these.
    Download(Vec<String>),
}

/// The page before `page`, never below the first.
pub open spec fn previous_page(page: nat) -> nat {
    if page > 1 {
        (page - 1) as nat
    } else {
        page
    }
}

/// What the picks lead to, in this order of precedence: next page, previous page,
/// another provider, another query; else one URL is offered for playing and several
/// (or none) are fetched.
pub fn search_step(page: usize, sel: Selection) -> (out: SearchStep)
    requires
        page < usize::MAX,
    ensures
        sel.next_page ==> out == SearchStep::Page((page + 1) as usize),
        !sel.next_page && sel.prev_page ==> out == SearchStep::Page(previous_page(page as nat) as usize),
        !sel.next_page && !sel.prev_page && sel.switch_provider ==> out is ChangeProvider,
        !sel.next_page && !sel.prev_page && !sel.switch_provider && sel.new_search ==> out is NewSearch,
        !sel.next_page && !sel.prev_page && !sel.switch_provider && !sel.new_search ==> (if sel.urls@.len() == 1 {
            out matches SearchStep::ActOnOne(u) && u@ == sel.urls@[0]@
        } else {
            out matches SearchStep::Download(us) && us@ == sel.urls@
        }),
{
    if sel.next_page {
        return SearchStep::Page(page + 1);
    }
    if sel.prev_page {
        return SearchStep::Page(if page > 1 { page - 1 } else { page });
    }
    if sel.switch_provider {
        return SearchStep::ChangeProvider;
    }
    if sel.new_search {
        return SearchStep::NewSearch;
    }
    if sel.urls.len() == 1 {
        let mut urls = sel.urls;
        let u = urls.remove(0);
        SearchStep::ActOnOne(u)
    } else {
        SearchStep::Download(sel.urls)
    }
}

/// What to do when a page has no hits.
#[derive(Debug)]
pub enum NoResultsStep {
    NewSearch,
    Page(usize),
    Quit,
}

/// The answer to the "no results" menu (new search, previous page, quit); no answer quits.
pub fn no_results_step(choice: Option<Vec<usize>>, page: usize) -> (out: NoResultsStep)
    ensures
        match choice {
            Some(s) if s@.len() > 0 && s@[0] == 0 => out is NewSearch,
            Some(s) if s@.len() > 0 && s@[0] == 1 => out == NoResultsStep::Page(previous_page(page as nat) as usize),
            _ => out is Quit,
        },
{
    let action = match choice {
        Some(s) => if s.len() > 0 {
            s[0]
        } else {
            2
        },
        None => 2,
    };
    if action == 0 {
        NoResultsStep::NewSearch
    } else if action == 1 {
        NoResultsStep::Page(if page > 1 { page - 1 } else { page })
    } else {
        NoResultsStep::Quit
    }
}

/// What to do with the one hit picked.
#[derive(Debug)]
pub enum TrackAction {
    Play,
    PlayWithQuality,
    Download,
    Back,
}

/// The answer to the one-hit menu (play, pick quality and play, fetch, back); no answer
/// goes back.
pub fn track_action(choice: Option<Vec<usize>>) -> (out: TrackAction)
    ensures
        match choice {
            Some(s) if s@.len() > 0 && s@[0] == 0 => out is Play,
            Some(s) if s@.len() > 0 && s@[0] == 1 => out is PlayWithQuality,
            Some(s) if s@.len() > 0 && s@[0] == 2 => out is Download,
            _ => out is Back,
        },
{
    match choice {
        Some(s) => if s.len() == 0 {
            TrackAction::Back
        } else if s[0] == 0 {
            TrackAction::Play
        } else if s[0] == 1 {
            TrackAction::PlayWithQuality
        } else if s[0] == 2 {
            TrackAction::Download
        } else {
            TrackAction::Back
        },
        None => TrackAction::Back,
    }
}

/// The yt-dlp format for an audio quality picked from the menu (high, medium, low);
/// no pick keeps the best.
pub fn audio_quality_format(choice: Option<usize>) -> (out: &'static str)
    ensures
        choice == Some(1usize) ==> out@ == "bestaudio[abr<=128]/best"@,
        choice == Some(2usize) ==> out@ == "worstaudio/worst"@,
        choice != Some(1usize) && choice != Some(2usize) ==> out@ == "bestaudio/best"@,
{
    match choice {
        Some(1) => "bestaudio[abr<=128]/best",
        Some(2) => "worstaudio/worst",
        _ => "bestaudio/best",
    }
}

/// What to do when the track has ended.
#[derive(Debug)]
pub enum EndStep {
    Repeat,
    NewSearch,
    BackToResults,
    Download,
    Quit,
}

/// The answer to the "track ended" menu (repeat, new search, back, fetch, quit); no
/// answer quits.
pub fn end_step(choice: Option<Vec<usize>>) -> (out: EndStep)
    requires
        choice matches Some(s) ==> s@.len() > 0,
    ensures
        match choice {
            Some(s) if s@[0] == 0 => out is Repeat,
            Some(s) if s@[0] == 1 => out is NewSearch,
            Some(s) if s@[0] == 2 => out is BackToResults,
            Some(s) if s@[0] == 3 => out is Download,
            _ => out is Quit,
        },
{
    match choice {
        Some(s) => if s[0] == 0 {
            EndStep::Repeat
        } else if s[0] == 1 {
            EndStep::NewSearch
        } else if s[0] == 2 {
            EndStep::BackToResults
        } else if s[0] == 3 {
            EndStep::Download
        } else {
            EndStep::Quit
        },
        None => EndStep::Quit,
    }
}


/// A number shown with at least two digits.
pub open spec fn two_digits(n: nat) -> Seq<char> {
    if n < 10 {
        seq!['0'] + decimal(n)
    } else {
        decimal(n)
    }
}

/// A hit's length as the results menu shows it: `(mm:ss)`.
pub open spec fn duration_text(secs: nat) -> Seq<char> {
    "("@ + two_digits(secs / 60) + ":"@ + two_digits(secs % 60) + ")"@
}

/// A hit's length, in whole seconds, as the results menu shows it.
pub fn duration_label(secs: u64) -> (out: String)
    requires
        secs / 60 <= usize::MAX,
    ensures
        out@ == duration_text(secs as nat),
{
    let m = (secs / 60) as usize;
    let s = (secs % 60) as usize;
    let mut out = String::from_str("(");
    if m < 10 {
        out.append("0");
    }
    append_decimal(&mut out, m);
    out.append(":");
    if s < 10 {
        out.append("0");
    }
    append_decimal(&mut out, s);
    out.append(")");
    proof {
        reveal_strlit("0");
        reveal_strlit("(");
        reveal_strlit(":");
        reveal_strlit(")");
    }
    assert(out@ =~= duration_text(secs as nat));
    out
}

} // verus!
