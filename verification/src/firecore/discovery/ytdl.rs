//! The yt-dlp side of searching: the queries it is given and what is done with its hits.
use vstd::prelude::*;
use crate::firecore::discovery::types::{
    normalize_soundcloud_url, opt_text, provider_table, providers, soundcloud_page, SearchProvider,
    SearchResult,
};
use crate::text::{append_decimal, decimal, str_eq, views};

verus! {

/// The `--playlist-items` range for a page of ten hits: `first-last`, counting from 1.
pub open spec fn items_range(page: nat) -> Seq<char> {
    decimal(((page - 1) * 10 + 1) as nat) + "-"@ + decimal(page * 10)
}

/// The `--playlist-items` range of page `page` (pages count from 1).
pub fn playlist_items_range(page: usize) -> (out: String)
    requires
        1 <= page,
        page * 10 <= usize::MAX,
    ensures
        out@ == items_range(page as nat),
{
    let mut out = String::new();
    append_decimal(&mut out, (page - 1) * 10 + 1);
    out.append("-");
    append_decimal(&mut out, page * 10);
    out
}

/// What yt-dlp is asked for: YouTube Music takes a search-page URL; the others take
/// `prefix` + the number of hits wanted so far + `:` + the query.
pub open spec fn search_query(id: Seq<char>, prefix: Seq<char>, suffix: Seq<char>, query: Seq<char>, page: nat) -> Seq<char> {
    if id == "ym"@ {
        prefix + query + suffix
    } else {
        prefix + decimal(10 * page) + ":"@ + query
    }
}

/// The search yt-dlp runs for `query` on `provider`, page `page`.
pub fn build_search_query(provider: &SearchProvider, query: &str, page: usize) -> (out: String)
    requires
        10 * page <= usize::MAX,
    ensures
        out@ == search_query(provider.id@, provider.prefix@, provider.suffix@, query@, page as nat),
{
    if str_eq(provider.id, "ym") {
        let mut out = String::from_str(provider.prefix);
        out.append(query);
        out.append(provider.suffix);
        out
    } else {
        let mut out = String::from_str(provider.prefix);
        append_decimal(&mut out, 10 * page);
        out.append(":");
        out.append(query);
        out
    }
}

/// The arguments yt-dlp gets for one page of a search on one provider.
pub open spec fn search_arg_list(id: Seq<char>, query: Seq<char>, page: nat) -> Seq<Seq<char>> {
    let head = seq!["-j"@, "--playlist-items"@, items_range(page)];
    let flat = if id == "yt"@ || id == "sc"@ {
        seq!["--flat-playlist"@]
    } else {
        Seq::empty()
    };
    head + flat + seq![search_query(id, provider_prefix(id), provider_suffix(id), query, page)]
}

/// The query prefix of the provider with this id (empty for an unknown id).
pub open spec fn provider_prefix(id: Seq<char>) -> Seq<char> {
    let i = provider_position(id);
    if i < 0 {
        Seq::empty()
    } else {
        provider_table()[i].2
    }
}

/// The query suffix of the provider with this id (empty for an unknown id).
pub open spec fn provider_suffix(id: Seq<char>) -> Seq<char> {
    let i = provider_position(id);
    if i < 0 {
        Seq::empty()
    } else {
        provider_table()[i].3
    }
}

/// Where the provider with this id stands in the table, or -1.
pub open spec fn provider_position(id: Seq<char>) -> int {
    if id == "yt"@ {
        0
    } else if id == "ym"@ {
        1
    } else if id == "sc"@ {
        2
    } else if id == "tk"@ {
        3
    } else {
        -1
    }
}

/// Where the provider with this id stands in the provider list.
pub fn find_provider(id: &str) -> (out: Option<usize>)
    ensures
        match out {
            Some(i) => i as int == provider_position(id@),
            None => provider_position(id@) == -1,
        },
{
    if str_eq(id, "yt") {
        Some(0)
    } else if str_eq(id, "ym") {
        Some(1)
    } else if str_eq(id, "sc") {
        Some(2)
    } else if str_eq(id, "tk") {
        Some(3)
    } else {
        None
    }
}

/// The yt-dlp arguments for one page of a search for `query` on the provider `pid`.
pub fn search_args(pid: &str, query: &str, page: usize) -> (out: Vec<String>)
    requires
        provider_position(pid@) >= 0,
        1 <= page,
        page * 10 <= usize::MAX,
    ensures
        views(out@) == search_arg_list(pid@, query@, page as nat),
{
    let table = providers();
    let i = match find_provider(pid) {
        Some(i) => i,
        None => 0,
    };
    let provider = &table[i];
    assert(provider.id@ == pid@) by {
        assert(crate::firecore::discovery::types::provider_view(table@[i as int]) == provider_table()[i as int]);
    }
    let mut out: Vec<String> = Vec::new();
    out.push(String::from_str("-j"));
    out.push(String::from_str("--playlist-items"));
    out.push(playlist_items_range(page));
    let flat = str_eq(pid, "yt") || str_eq(pid, "sc");
    if flat {
        out.push(String::from_str("--flat-playlist"));
    }
    out.push(build_search_query(provider, query, page));
    proof {
        let ghost id = pid@;
        let ghost head = seq!["-j"@, "--playlist-items"@, items_range(page as nat)];
        if flat {
            assert(views(out@) =~= head + seq!["--flat-playlist"@] + seq![
                search_query(id, provider_prefix(id), provider_suffix(id), query@, page as nat),
            ]);
        } else {
            assert(views(out@) =~= head + Seq::<Seq<char>>::empty() + seq![
                search_query(id, provider_prefix(id), provider_suffix(id), query@, page as nat),
            ]);
        }
    }
    out
}

/// A hit read from yt-dlp, marked with the provider it came from; a SoundCloud hit
/// keeps its public page as the URL to open.
pub fn assign_provider(res: SearchResult, pid: &str) -> (out: SearchResult)
    ensures
        out.provider@ == pid@,
        pid@ == "sc"@ ==> opt_text(out.search_url) == soundcloud_page(res),
        pid@ != "sc"@ ==> out.search_url == res.search_url,
        out == (SearchResult { provider: out.provider, search_url: out.search_url, ..res }),
{
    let mut res = res;
    res.provider = String::from_str(pid);
    if str_eq(pid, "sc") {
        res.search_url = normalize_soundcloud_url(&res);
    }
    res
}

} // verus!
