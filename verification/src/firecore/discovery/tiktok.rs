//! Finding TikTok videos through web search pages, and reading their links.
use vstd::prelude::*;
use crate::firecore::discovery::types::{opt_text, SearchResult};
use crate::text::{
    after_last, after_last_char, all_ascii_digits, all_digits, append_decimal, contains,
    contains_seq, cut_at, cut_at_any, decimal, has_prefix, is_blank_str, join_with, join_words,
    lemma_split_nonempty, prefix_until, replace_all, replace_str, split_on, split_str, starts_with,
    str_eq, trim, trim_end_char, trim_end_matching, views, words,
};

verus! {

// ---------------------------------------------------------------------------
// Percent-encoding (the `urlencoding` crate)
// ---------------------------------------------------------------------------

/// What `urlencoding::decode` returns for a text: the decoded text, or nothing when the
/// decoded bytes are not UTF-8.
pub uninterp spec fn url_decoded(s: Seq<char>) -> Option<Seq<char>>;

/// A character that percent-encoding leaves as it is: ASCII letters and digits and `-._~`.
pub open spec fn url_safe(c: char) -> bool {
    ('0' <= c && c <= '9') || ('A' <= c && c <= 'Z') || ('a' <= c && c <= 'z') || c == '-'
        || c == '.' || c == '_' || c == '~'
}

/// The upper-case hexadecimal digit for `d < 16`.
pub open spec fn hex_upper(d: nat) -> char {
    if d < 10 {
        (('0' as u32) + d) as char
    } else {
        (('A' as u32) + d - 10) as char
    }
}

/// The UTF-8 bytes of a character, first to last.
pub open spec fn utf8_bytes(c: char) -> Seq<nat> {
    let v = c as nat;
    if v < 0x80 {
        seq![v]
    } else if v < 0x800 {
        seq![(0xC0 + v / 0x40) as nat, (0x80 + v % 0x40) as nat]
    } else if v < 0x10000 {
        seq![(0xE0 + v / 0x1000) as nat, (0x80 + (v / 0x40) % 0x40) as nat, (0x80 + v % 0x40) as nat]
    } else {
        seq![
            (0xF0 + v / 0x40000) as nat,
            (0x80 + (v / 0x1000) % 0x40) as nat,
            (0x80 + (v / 0x40) % 0x40) as nat,
            (0x80 + v % 0x40) as nat,
        ]
    }
}

/// One byte percent-encoded: the ASCII character itself when it is safe, else `%` and
/// two upper-case hex digits.
pub open spec fn pct_byte(b: nat) -> Seq<char> {
    if b < 0x80 && url_safe(b as char) {
        seq![b as char]
    } else {
        seq!['%', hex_upper(b / 16), hex_upper(b % 16)]
    }
}

/// Bytes percent-encoded one by one.
pub open spec fn pct_bytes(bs: Seq<nat>) -> Seq<char>
    decreases bs.len(),
{
    if bs.len() == 0 {
        Seq::empty()
    } else {
        pct_bytes(bs.drop_last()) + pct_byte(bs.last())
    }
}

/// A text percent-encoded: the UTF-8 bytes of each character in turn.
pub open spec fn pct_text(s: Seq<char>) -> Seq<char>
    decreases s.len(),
{
    if s.len() == 0 {
        Seq::empty()
    } else {
        pct_text(s.drop_last()) + pct_bytes(utf8_bytes(s.last()))
    }
}

/// `urlencoding::encode`: percent-encodes every byte of the text's UTF-8 form except
/// ASCII letters, digits and `-._~`, with upper-case hex digits.
#[verifier::external_body]
fn url_encode(s: &str) -> (out: String)
    ensures
        out@ == pct_text(s@),
{
    urlencoding::encode(s).into_owned()
}

/// The UTF-8 form of a text.
pub open spec fn utf8_text(s: Seq<char>) -> Seq<nat>
    decreases s.len(),
{
    if s.len() == 0 {
        Seq::empty()
    } else {
        utf8_text(s.drop_last()) + utf8_bytes(s.last())
    }
}

/// The byte is an ASCII hex digit, in either case.
pub open spec fn is_hex_byte(b: nat) -> bool {
    (0x30 <= b <= 0x39) || (0x41 <= b <= 0x46) || (0x61 <= b <= 0x66)
}

/// The value of an ASCII hex digit byte.
pub open spec fn hex_value(b: nat) -> nat {
    if b <= 0x39 {
        (b - 0x30) as nat
    } else if b <= 0x46 {
        (b - 0x41 + 10) as nat
    } else {
        (b - 0x61 + 10) as nat
    }
}

/// Bytes with each `%` that is followed by two hex digits replaced by the byte they
/// spell; every other byte, a lone `%` among them, is kept.
pub open spec fn pct_decode(bs: Seq<nat>) -> Seq<nat>
    decreases bs.len(),
{
    if bs.len() == 0 {
        Seq::empty()
    } else if bs[0] == 0x25 && bs.len() >= 3 && is_hex_byte(bs[1]) && is_hex_byte(bs[2]) {
        seq![hex_value(bs[1]) * 16 + hex_value(bs[2])] + pct_decode(bs.skip(3))
    } else {
        seq![bs[0]] + pct_decode(bs.skip(1))
    }
}

/// `urlencoding::decode`: decodes the `%XX` escapes of the text's UTF-8 bytes and reads
/// the bytes as UTF-8. The result is the text whose UTF-8 form they are, or `None` when
/// no text has that form; a text with no `%` comes back as it is.
#[verifier::external_body]
fn url_decode(s: &str) -> (out: Option<String>)
    ensures
        opt_text(out) == url_decoded(s@),
        match out {
            Some(t) => utf8_text(t@) == pct_decode(utf8_text(s@)),
            None => forall|t: Seq<char>| #[trigger] utf8_text(t) != pct_decode(utf8_text(s@)),
        },
        !s@.contains('%') ==> opt_text(out) == Some(s@),
{
    urlencoding::decode(s).ok().map(|d| d.into_owned())
}

// ---------------------------------------------------------------------------
// Reading TikTok links
// ---------------------------------------------------------------------------

/// A link cut before its query or fragment, without trailing `/`s.
pub open spec fn tiktok_clean(url: Seq<char>) -> Seq<char> {
    trim_end_char(cut_at_any(url, seq!['?', '#']), '/')
}

/// A cleaned link names a TikTok video: it holds `tiktok.com/@` and `/video/` and its
/// last path segment is all digits.
pub open spec fn is_tiktok_video(clean: Seq<char>) -> bool {
    contains_seq(clean, "tiktok.com/@"@) && contains_seq(clean, "/video/"@) && all_digits(
        after_last(clean, '/'),
    )
}

/// The list after offering it one link: the cleaned link is added when it names a
/// video and is not there yet.
pub open spec fn pushed(urls: Seq<Seq<char>>, url: Seq<char>) -> Seq<Seq<char>> {
    let c = tiktok_clean(url);
    if is_tiktok_video(c) && !urls.contains(c) {
        urls.push(c)
    } else {
        urls
    }
}

/// The list after offering it each candidate in turn.
pub open spec fn push_all(urls: Seq<Seq<char>>, cands: Seq<Seq<char>>) -> Seq<Seq<char>>
    decreases cands.len(),
{
    if cands.len() == 0 {
        urls
    } else {
        pushed(push_all(urls, cands.drop_last()), cands.last())
    }
}

/// A list of links with no repeats, each a cleaned video link.
pub open spec fn clean_list(urls: Seq<Seq<char>>) -> bool {
    &&& forall|i: int, j: int| 0 <= i < j < urls.len() ==> urls[i] != urls[j]
    &&& forall|i: int| 0 <= i < urls.len() ==> is_tiktok_video(#[trigger] urls[i])
}

/// Whether `urls` already holds `u`.
fn holds(urls: &Vec<String>, u: &str) -> (b: bool)
    ensures
        b == views(urls@).contains(u@),
{
    let mut i: usize = 0;
    while i < urls.len()
        invariant
            i <= urls.len(),
            forall|j: int| 0 <= j < i ==> urls@[j]@ != u@,
        decreases urls.len() - i,
    {
        if str_eq(urls[i].as_str(), u) {
            assert(views(urls@)[i as int] == u@);
            return true;
        }
        i += 1;
    }
    assert forall|j: int| 0 <= j < views(urls@).len() implies views(urls@)[j] != u@ by {
        assert(views(urls@)[j] == urls@[j]@);
    }
    false
}

/// Adds the link to `urls`, cleaned, when it names a TikTok video not yet listed.
pub fn push_tiktok_url(urls: &mut Vec<String>, url: &str)
    ensures
        views(final(urls)@) == pushed(views(old(urls)@), url@),
{
    let stops = vec!['?', '#'];
    let cut = cut_at(url, &stops);
    assert(stops@ =~= seq!['?', '#']);
    let clean = trim_end_matching(cut.as_str(), '/');
    if !contains(clean.as_str(), "tiktok.com/@") || !contains(clean.as_str(), "/video/") {
        return;
    }
    let id = after_last_char(clean.as_str(), '/');
    if !all_ascii_digits(id.as_str()) {
        return;
    }
    if !holds(urls, clean.as_str()) {
        let ghost before = views(urls@);
        let ghost c = clean@;
        urls.push(clean);
        assert(views(urls@) =~= before.push(c));
    }
}

/// Offering a link keeps a list free of repeats and of anything but video links.
pub proof fn lemma_pushed_clean(urls: Seq<Seq<char>>, url: Seq<char>)
    requires
        clean_list(urls),
    ensures
        clean_list(pushed(urls, url)),
{
    let c = tiktok_clean(url);
    if is_tiktok_video(c) && !urls.contains(c) {
        let n = urls.push(c);
        assert forall|i: int, j: int| 0 <= i < j < n.len() implies n[i] != n[j] by {
            if j == urls.len() {
                assert(urls.contains(urls[i]));
            }
        }
        assert forall|i: int| 0 <= i < n.len() implies is_tiktok_video(#[trigger] n[i]) by {
            if i < urls.len() {
                assert(n[i] == urls[i]);
            }
        }
    }
}

/// Offering many links keeps a list free of repeats and of anything but video links.
pub proof fn lemma_push_all_clean(urls: Seq<Seq<char>>, cands: Seq<Seq<char>>)
    requires
        clean_list(urls),
    ensures
        clean_list(push_all(urls, cands)),
    decreases cands.len(),
{
    if cands.len() > 0 {
        lemma_push_all_clean(urls, cands.drop_last());
        lemma_pushed_clean(push_all(urls, cands.drop_last()), cands.last());
    }
}

/// Offering `a` then `b` is offering `a + b`.
pub proof fn lemma_push_all_append(urls: Seq<Seq<char>>, a: Seq<Seq<char>>, b: Seq<Seq<char>>)
    ensures
        push_all(push_all(urls, a), b) == push_all(urls, a + b),
    decreases b.len(),
{
    if b.len() == 0 {
        assert(a + b =~= a);
    } else {
        lemma_push_all_append(urls, a, b.drop_last());
        assert((a + b).drop_last() =~= a + b.drop_last());
        assert((a + b).last() == b.last());
    }
}

/// Offering links keeps what was there, adds every offered link that names a video
/// (cleaned), and adds nothing else.
pub proof fn lemma_push_all_contents(urls: Seq<Seq<char>>, cands: Seq<Seq<char>>)
    ensures
        forall|u: Seq<char>| urls.contains(u) ==> #[trigger] push_all(urls, cands).contains(u),
        forall|c: Seq<char>| cands.contains(c) && is_tiktok_video(tiktok_clean(c))
            ==> push_all(urls, cands).contains(#[trigger] tiktok_clean(c)),
        forall|u: Seq<char>| #[trigger] push_all(urls, cands).contains(u) ==> urls.contains(u)
            || exists|c: Seq<char>| cands.contains(c) && tiktok_clean(c) == u && is_tiktok_video(u),
    decreases cands.len(),
{
    if cands.len() > 0 {
        let d = cands.drop_last();
        lemma_push_all_contents(urls, d);
        let before = push_all(urls, d);
        let after = push_all(urls, cands);
        let l = cands.last();
        assert(after == pushed(before, l));
        assert forall|u: Seq<char>| before.contains(u) implies after.contains(u) by {
            let j = choose|j: int| 0 <= j < before.len() && before[j] == u;
            if after != before {
                assert(after[j] == u);
            }
        }
        assert forall|c: Seq<char>| cands.contains(c) && is_tiktok_video(tiktok_clean(c))
            implies after.contains(#[trigger] tiktok_clean(c)) by {
            let k = choose|k: int| 0 <= k < cands.len() && cands[k] == c;
            if k < cands.len() - 1 {
                assert(d[k] == c);
                assert(before.contains(tiktok_clean(c)));
            } else if !before.contains(tiktok_clean(c)) {
                assert(after[before.len() as int] == tiktok_clean(c));
            }
        }
        assert forall|u: Seq<char>| #[trigger] after.contains(u) implies urls.contains(u)
            || exists|c: Seq<char>| cands.contains(c) && tiktok_clean(c) == u && is_tiktok_video(u) by {
            if before.contains(u) {
                if !urls.contains(u) {
                    let c = choose|c: Seq<char>| d.contains(c) && tiktok_clean(c) == u && is_tiktok_video(u);
                    let k = choose|k: int| 0 <= k < d.len() && d[k] == c;
                    assert(cands[k] == c);
                }
            } else {
                let j = choose|j: int| 0 <= j < after.len() && after[j] == u;
                assert(j == before.len());
                assert(cands[cands.len() - 1] == l);
            }
        }
    }
}

/// The characters at which a link found in a page ends.
pub open spec fn link_stops() -> Seq<char> {
    seq!['"', '\'', '<', '>', ' ', '\\']
}

/// The link that starts with `marker` and goes on with `part`: cut at the first quote,
/// bracket, space or backslash, with `&amp;` read as `&`, then percent-decoded when that
/// gives text.
pub open spec fn tiktok_candidate(marker: Seq<char>, part: Seq<char>) -> Seq<char> {
    let raw = replace_all(cut_at_any(marker + part, link_stops()), "&amp;"@, "&"@);
    match url_decoded(raw) {
        Some(d) => d,
        None => raw,
    }
}

/// The candidate links that follow each occurrence of `marker` in `body`.
pub open spec fn marker_candidates(body: Seq<char>, marker: Seq<char>) -> Seq<Seq<char>> {
    split_on(body, marker).skip(1).map_values(|part: Seq<char>| tiktok_candidate(marker, part))
}

/// The plain form of a TikTok profile link.
pub open spec fn plain_marker() -> Seq<char> {
    "https://www.tiktok.com/@"@
}

/// The percent-encoded form of a TikTok profile link.
pub open spec fn encoded_marker() -> Seq<char> {
    "https%3A%2F%2Fwww.tiktok.com%2F%40"@
}

/// The TikTok video links in a page: those written out, then those percent-encoded,
/// cleaned, without repeats, in the order found.
pub open spec fn tiktok_links(body: Seq<char>) -> Seq<Seq<char>> {
    push_all(
        seq![],
        marker_candidates(body, plain_marker()) + marker_candidates(body, encoded_marker()),
    )
}

/// The video links of a page are those found after either form of a TikTok profile
/// link, written out or percent-encoded: every candidate that names a video is in the
/// result, cleaned, and the result holds nothing else.
pub proof fn lemma_tiktok_links_found(body: Seq<char>)
    ensures
        forall|c: Seq<char>| (marker_candidates(body, plain_marker()).contains(c)
            || marker_candidates(body, encoded_marker()).contains(c)) && is_tiktok_video(tiktok_clean(c))
            ==> tiktok_links(body).contains(#[trigger] tiktok_clean(c)),
        forall|u: Seq<char>| #[trigger] tiktok_links(body).contains(u) ==> is_tiktok_video(u)
            && exists|c: Seq<char>| (marker_candidates(body, plain_marker()).contains(c)
                || marker_candidates(body, encoded_marker()).contains(c)) && tiktok_clean(c) == u,
{
    let p = marker_candidates(body, plain_marker());
    let e = marker_candidates(body, encoded_marker());
    let all = p + e;
    lemma_push_all_contents(seq![], all);
    assert forall|c: Seq<char>| (p.contains(c) || e.contains(c)) implies all.contains(c) by {
        if p.contains(c) {
            let k = choose|k: int| 0 <= k < p.len() && p[k] == c;
            assert(all[k] == c);
        } else {
            let k = choose|k: int| 0 <= k < e.len() && e[k] == c;
            assert(all[p.len() + k] == c);
        }
    }
    assert forall|u: Seq<char>| #[trigger] tiktok_links(body).contains(u) implies is_tiktok_video(u)
        && exists|c: Seq<char>| (p.contains(c) || e.contains(c)) && tiktok_clean(c) == u by {
        assert(!Seq::<Seq<char>>::empty().contains(u));
        let c = choose|c: Seq<char>| all.contains(c) && tiktok_clean(c) == u && is_tiktok_video(u);
        let k = choose|k: int| 0 <= k < all.len() && all[k] == c;
        if k < p.len() {
            assert(p[k] == c);
        } else {
            assert(e[k - p.len()] == c);
        }
    }
}

/// Offers `urls` every link that follows `marker` in `body`.
fn push_marker_links(urls: &mut Vec<String>, body: &str, marker: &str)
    requires
        marker@.len() > 0,
    ensures
        views(final(urls)@) == push_all(views(old(urls)@), marker_candidates(body@, marker@)),
{
    proof {
        lemma_split_nonempty(body@, marker@);
    }
    let parts = split_str(body, marker);
    let stops = vec!['"', '\'', '<', '>', ' ', '\\'];
    assert(stops@ =~= link_stops());
    let ghost cands = marker_candidates(body@, marker@);
    let ghost start = views(urls@);
    let mut i: usize = 1;
    assert(cands.take(0) =~= Seq::<Seq<char>>::empty());
    while i < parts.len()
        invariant
            1 <= i <= parts.len(),
            views(parts@) == split_on(body@, marker@),
            stops@ == link_stops(),
            cands == marker_candidates(body@, marker@),
            cands.len() == parts.len() - 1,
            start == views(old(urls)@),
            views(urls@) == push_all(start, cands.take(i - 1)),
        decreases parts.len() - i,
    {
        let mut raw0 = String::from_str(marker);
        raw0.append(parts[i].as_str());
        let raw1 = cut_at(raw0.as_str(), &stops);
        proof {
            reveal_strlit("&amp;");
        }
        let raw = replace_str(raw1.as_str(), "&amp;", "&");
        proof {
            assert(views(parts@)[i as int] == parts@[i as int]@);
            assert(cands[i - 1] == tiktok_candidate(marker@, parts@[i as int]@));
        }
        match url_decode(raw.as_str()) {
            Some(d) => push_tiktok_url(urls, d.as_str()),
            None => push_tiktok_url(urls, raw.as_str()),
        }
        proof {
            assert(cands.take(i as int).drop_last() =~= cands.take(i - 1));
        }
        i += 1;
    }
    assert(cands.take(i - 1) =~= cands);
}

/// The TikTok video links in a page.
pub fn extract_tiktok_urls(body: &str) -> (out: Vec<String>)
    ensures
        views(out@) == tiktok_links(body@),
        clean_list(views(out@)),
        forall|c: Seq<char>| (marker_candidates(body@, plain_marker()).contains(c)
            || marker_candidates(body@, encoded_marker()).contains(c)) && is_tiktok_video(tiktok_clean(c))
            ==> views(out@).contains(#[trigger] tiktok_clean(c)),
{
    proof {
        lemma_tiktok_links_found(body@);
    }
    let mut urls: Vec<String> = Vec::new();
    proof {
        reveal_strlit("https://www.tiktok.com/@");
        reveal_strlit("https%3A%2F%2Fwww.tiktok.com%2F%40");
        assert(views(urls@) =~= Seq::<Seq<char>>::empty());
    }
    push_marker_links(&mut urls, body, "https://www.tiktok.com/@");
    push_marker_links(&mut urls, body, "https%3A%2F%2Fwww.tiktok.com%2F%40");
    proof {
        lemma_push_all_append(
            seq![],
            marker_candidates(body@, plain_marker()),
            marker_candidates(body@, encoded_marker()),
        );
        lemma_push_all_clean(seq![], marker_candidates(body@, plain_marker()) + marker_candidates(body@, encoded_marker()));
    }
    urls
}

/// Gathers video links from a list of candidates, in order, cleaned, without repeats.
pub fn collect_tiktok_urls(cands: &Vec<String>) -> (out: Vec<String>)
    ensures
        views(out@) == push_all(seq![], views(cands@)),
        clean_list(views(out@)),
{
    let mut urls: Vec<String> = Vec::new();
    let mut i: usize = 0;
    assert(views(urls@) =~= Seq::<Seq<char>>::empty());
    assert(views(cands@).take(0) =~= Seq::<Seq<char>>::empty());
    while i < cands.len()
        invariant
            i <= cands.len(),
            views(urls@) == push_all(seq![], views(cands@).take(i as int)),
        decreases cands.len() - i,
    {
        push_tiktok_url(&mut urls, cands[i].as_str());
        proof {
            assert(views(cands@).take(i + 1).drop_last() =~= views(cands@).take(i as int));
            assert(views(cands@)[i as int] == cands@[i as int]@);
        }
        i += 1;
    }
    assert(views(cands@).take(i as int) =~= views(cands@));
    proof {
        lemma_push_all_clean(seq![], views(cands@));
    }
    urls
}


// ---------------------------------------------------------------------------
// DuckDuckGo result pages
// ---------------------------------------------------------------------------

/// The page is DuckDuckGo's bot challenge rather than results.
pub open spec fn ddg_blocked(body: Seq<char>) -> bool {
    contains_seq(body, "anomaly.js"@) || contains_seq(body, "challenge-form"@)
}

/// The decoded targets of DuckDuckGo's `uddg=` redirect parameters, in order (nothing
/// where decoding fails).
pub open spec fn uddg_targets(body: Seq<char>) -> Seq<Option<Seq<char>>> {
    split_on(body, "uddg="@).skip(1).map_values(
        |part: Seq<char>| url_decoded(replace_all(cut_at_any(part, seq!['&']), "&amp;"@, ""@)),
    )
}

/// The list after offering it each decoded target in turn.
pub open spec fn push_found(urls: Seq<Seq<char>>, found: Seq<Option<Seq<char>>>) -> Seq<Seq<char>>
    decreases found.len(),
{
    if found.len() == 0 {
        urls
    } else {
        let before = push_found(urls, found.drop_last());
        match found.last() {
            Some(u) => pushed(before, u),
            None => before,
        }
    }
}

/// The TikTok video links in a DuckDuckGo result page: none on a challenge page; else
/// the links in the page, then the targets of its redirects.
pub open spec fn ddg_links(body: Seq<char>) -> Seq<Seq<char>> {
    if ddg_blocked(body) {
        Seq::empty()
    } else {
        push_found(tiktok_links(body), uddg_targets(body))
    }
}

/// The TikTok video links in a DuckDuckGo result page.
pub fn ddg_page_urls(body: &str) -> (out: Vec<String>)
    ensures
        views(out@) == ddg_links(body@),
{
    if contains(body, "anomaly.js") || contains(body, "challenge-form") {
        let out: Vec<String> = Vec::new();
        assert(views(out@) =~= Seq::<Seq<char>>::empty());
        return out;
    }
    let mut urls = extract_tiktok_urls(body);
    proof {
        reveal_strlit("uddg=");
        reveal_strlit("&amp;");
        lemma_split_nonempty(body@, "uddg="@);
    }
    let parts = split_str(body, "uddg=");
    let amp = vec!['&'];
    assert(amp@ =~= seq!['&']);
    let ghost found = uddg_targets(body@);
    let ghost start = views(urls@);
    let mut i: usize = 1;
    assert(found.take(0) =~= Seq::<Option<Seq<char>>>::empty());
    while i < parts.len()
        invariant
            1 <= i <= parts.len(),
            views(parts@) == split_on(body@, "uddg="@),
            amp@ == seq!['&'],
            found == uddg_targets(body@),
            found.len() == parts.len() - 1,
            start == tiktok_links(body@),
            views(urls@) == push_found(start, found.take(i - 1)),
        decreases parts.len() - i,
    {
        let head = cut_at(parts[i].as_str(), &amp);
        proof {
            reveal_strlit("&amp;");
        }
        let encoded = replace_str(head.as_str(), "&amp;", "");
        proof {
            assert(views(parts@)[i as int] == parts@[i as int]@);
        }
        match url_decode(encoded.as_str()) {
            Some(d) => push_tiktok_url(&mut urls, d.as_str()),
            None => {},
        }
        proof {
            assert(found.take(i as int).drop_last() =~= found.take(i - 1));
        }
        i += 1;
    }
    assert(found.take(i - 1) =~= found);
    urls
}

// ---------------------------------------------------------------------------
// Search requests
// ---------------------------------------------------------------------------

/// Where TikTok links are looked for.
#[derive(Debug, PartialEq, Eq, Structural, Clone, Copy)]
pub enum TikTokSource {
    Brave,
    Bing,
    DuckDuckGo,
}

/// The first place to look: Brave when an API key is set, else Bing.
pub fn first_tiktok_source(has_key: bool) -> (s: TikTokSource)
    ensures
        s == (if has_key { TikTokSource::Brave } else { TikTokSource::Bing }),
{
    if has_key {
        TikTokSource::Brave
    } else {
        TikTokSource::Bing
    }
}

/// Where to look after `s` gave links (`found_any`) or none: nowhere once some were
/// found; else Brave is followed by Bing, Bing by DuckDuckGo, and DuckDuckGo by nothing.
pub fn next_tiktok_source(s: TikTokSource, found_any: bool) -> (r: Option<TikTokSource>)
    ensures
        r == (if found_any {
            None
        } else {
            match s {
                TikTokSource::Brave => Some(TikTokSource::Bing),
                TikTokSource::Bing => Some(TikTokSource::DuckDuckGo),
                TikTokSource::DuckDuckGo => None,
            }
        }),
{
    if found_any {
        return None;
    }
    match s {
        TikTokSource::Brave => Some(TikTokSource::Bing),
        TikTokSource::Bing => Some(TikTokSource::DuckDuckGo),
        TikTokSource::DuckDuckGo => None,
    }
}

/// What the Brave search answer `body` holds, as serde_json reads it: `None` when it is
/// not JSON; else, for each entry of the array at `/web/results` in order, its `url`
/// when that is a string (nothing when there is no such array).
pub uninterp spec fn brave_result_urls(body: Seq<char>) -> Option<Seq<Option<Seq<char>>>>;

/// The texts of optional strings.
pub open spec fn opt_texts(v: Seq<Option<String>>) -> Seq<Option<Seq<char>>> {
    v.map_values(|o: Option<String>| opt_text(o))
}

/// The texts that are present, in order.
pub open spec fn present(u: Seq<Option<Seq<char>>>) -> Seq<Seq<char>>
    decreases u.len(),
{
    if u.len() == 0 {
        Seq::empty()
    } else {
        match u.last() {
            Some(t) => present(u.drop_last()).push(t),
            None => present(u.drop_last()),
        }
    }
}

/// `serde_json::from_str` into a `Value`, then `pointer("/web/results")`, `as_array`,
/// and for each entry `get("url")` and `as_str`: the result's links as
/// `brave_result_urls` names them.
#[verifier::external_body]
fn brave_result_links(body: &str) -> (r: Option<Vec<Option<String>>>)
    ensures
        match brave_result_urls(body@) {
            None => r is None,
            Some(u) => r matches Some(v) && opt_texts(v@) == u,
        },
{
    let v: serde_json::Value = serde_json::from_str(body).ok()?;
    Some(match v.pointer("/web/results").and_then(|r| r.as_array()) {
        Some(items) => items
            .iter()
            .map(|it| it.get("url").and_then(|u| u.as_str()).map(|u| u.to_string()))
            .collect(),
        None => Vec::new(),
    })
}

/// The TikTok video links of a Brave search answer, each once, in the order found:
/// `None` when the answer is not JSON.
pub fn brave_tiktok_urls(body: &str) -> (r: Option<Vec<String>>)
    ensures
        match brave_result_urls(body@) {
            None => r is None,
            Some(u) => r matches Some(v) && views(v@) == push_all(seq![], present(u))
                && clean_list(views(v@)),
        },
{
    let items = match brave_result_links(body) {
        None => return None,
        Some(items) => items,
    };
    let ghost u = opt_texts(items@);
    let mut urls: Vec<String> = Vec::new();
    let mut i: usize = 0;
    assert(u.take(0) =~= Seq::<Option<Seq<char>>>::empty());
    assert(views(urls@) =~= Seq::<Seq<char>>::empty());
    while i < items.len()
        invariant
            i <= items@.len(),
            u == opt_texts(items@),
            views(urls@) == push_all(seq![], present(u.take(i as int))),
        decreases items@.len() - i,
    {
        assert(u.take(i + 1).drop_last() =~= u.take(i as int));
        assert(u.take(i + 1).last() == opt_text(items@[i as int]));
        match &items[i] {
            Some(s) => {
                assert(present(u.take(i + 1)) == present(u.take(i as int)).push(s@));
                assert(present(u.take(i + 1)).drop_last() =~= present(u.take(i as int)));
                push_tiktok_url(&mut urls, s.as_str());
            },
            None => {},
        }
        i += 1;
    }
    assert(u.take(i as int) =~= u);
    proof {
        assert(clean_list(Seq::<Seq<char>>::empty())) by {
            assert(seq![] =~= Seq::<Seq<char>>::empty());
        }
        lemma_push_all_clean(seq![], present(u));
    }
    Some(urls)
}

/// The web search that finds TikTok videos about `query` (its words joined by single
/// spaces).
pub open spec fn site_query(query: Seq<char>) -> Seq<char> {
    "site:tiktok.com/@ inurl:/video/ "@ + join_with(words(query), seq![' '])
}

/// The web search for TikTok videos about `query`.
pub fn tiktok_site_query(query: &str) -> (out: String)
    ensures
        out@ == site_query(query@),
{
    let mut out = String::from_str("site:tiktok.com/@ inurl:/video/ ");
    let w = join_words(query);
    out.append(w.as_str());
    out
}

/// The Brave search API request for a page of TikTok hits.
pub open spec fn brave_url(query: Seq<char>, offset: nat) -> Seq<char> {
    "https://api.search.brave.com/res/v1/web/search?q="@ + pct_text(site_query(query))
        + "&count=10&offset="@ + decimal(offset)
}

/// The Bing result page for a page of TikTok hits (Bing counts results from 1).
pub open spec fn bing_url(query: Seq<char>, offset: nat) -> Seq<char> {
    "https://www.bing.com/search?q="@ + pct_text(site_query(query)) + "&first="@ + decimal(
        offset + 1,
    )
}

/// The DuckDuckGo result page for a page of TikTok hits.
pub open spec fn duckduckgo_url(query: Seq<char>, offset: nat) -> Seq<char> {
    "https://duckduckgo.com/html/?q="@ + pct_text(site_query(query)) + "&s="@ + decimal(
        offset,
    )
}

/// The Brave search API request for TikTok hits about `query`, from `offset`.
pub fn brave_search_url(query: &str, offset: usize) -> (out: String)
    ensures
        out@ == brave_url(query@, offset as nat),
{
    let q = tiktok_site_query(query);
    let mut out = String::from_str("https://api.search.brave.com/res/v1/web/search?q=");
    let e = url_encode(q.as_str());
    out.append(e.as_str());
    out.append("&count=10&offset=");
    append_decimal(&mut out, offset);
    out
}

/// The Bing result page with TikTok hits about `query`, from `offset`.
pub fn bing_search_url(query: &str, offset: usize) -> (out: String)
    requires
        offset < usize::MAX,
    ensures
        out@ == bing_url(query@, offset as nat),
{
    let q = tiktok_site_query(query);
    let mut out = String::from_str("https://www.bing.com/search?q=");
    let e = url_encode(q.as_str());
    out.append(e.as_str());
    out.append("&first=");
    append_decimal(&mut out, offset + 1);
    out
}

/// The DuckDuckGo result page with TikTok hits about `query`, from `offset`.
pub fn duckduckgo_search_url(query: &str, offset: usize) -> (out: String)
    ensures
        out@ == duckduckgo_url(query@, offset as nat),
{
    let q = tiktok_site_query(query);
    let mut out = String::from_str("https://duckduckgo.com/html/?q=");
    let e = url_encode(q.as_str());
    out.append(e.as_str());
    out.append("&s=");
    append_decimal(&mut out, offset);
    out
}

/// How many hits come before page `page` (pages count from 1; page 0 counts as 1).
pub fn tiktok_offset(page: usize) -> (out: usize)
    requires
        (if page == 0 { 0 } else { page - 1 }) * 10 <= usize::MAX,
    ensures
        out == (if page == 0 { 0 } else { page - 1 }) * 10,
{
    page.saturating_sub(1) * 10
}

/// An API key is used only when it is present and not blank.
pub fn usable_api_key(key: Option<String>) -> (out: Option<String>)
    ensures
        match key {
            Some(k) => if trim(k@).len() > 0 {
                out == Some(k)
            } else {
                out is None
            },
            None => out is None,
        },
{
    match key {
        Some(k) => if is_blank_str(k.as_str()) {
            None
        } else {
            Some(k)
        },
        None => None,
    }
}

// ---------------------------------------------------------------------------
// Hits
// ---------------------------------------------------------------------------

/// The account a TikTok link belongs to: the path segment after the first
/// `tiktok.com/`, when there is one and it starts with `@`.
pub open spec fn tiktok_account(url: Seq<char>) -> Option<Seq<char>> {
    let parts = split_on(url, "tiktok.com/"@);
    if parts.len() >= 2 {
        let seg = cut_at_any(parts[1], seq!['/']);
        if has_prefix(seg, "@"@) {
            Some(seg)
        } else {
            None
        }
    } else {
        None
    }
}

/// The hit for a TikTok video link: its last path segment as id and in the title, the
/// account as uploader, and the link itself as media URL, page and URL to open.
pub open spec fn tiktok_hit(url: Seq<char>, r: SearchResult) -> bool {
    let id = after_last(url, '/');
    &&& r.title@ == "TikTok video "@ + id
    &&& opt_text(r.url) == Some(url)
    &&& opt_text(r.webpage_url) == Some(url)
    &&& opt_text(r.id) == Some(id)
    &&& r.duration is None
    &&& opt_text(r.uploader) == tiktok_account(url)
    &&& r.channel is None
    &&& r.artist is None
    &&& r.subtitles is None
    &&& r.automatic_captions is None
    &&& opt_text(r.search_url) == Some(url)
    &&& r.provider@ == "tk"@
}

/// The account part of a TikTok link.
fn account_of(url: &str) -> (out: Option<String>)
    ensures
        opt_text(out) == tiktok_account(url@),
{
    proof {
        reveal_strlit("tiktok.com/");
    }
    let parts = split_str(url, "tiktok.com/");
    if parts.len() < 2 {
        return None;
    }
    let slash = vec!['/'];
    assert(slash@ =~= seq!['/']);
    let seg = cut_at(parts[1].as_str(), &slash);
    assert(views(parts@)[1] == parts@[1]@);
    if starts_with(seg.as_str(), "@") {
        Some(seg)
    } else {
        None
    }
}

/// The hit for a TikTok video link.
pub fn tiktok_result_from_url(url: &str) -> (out: SearchResult)
    ensures
        tiktok_hit(url@, out),
{
    let id = after_last_char(url, '/');
    let uploader = account_of(url);
    let mut title = String::from_str("TikTok video ");
    title.append(id.as_str());
    SearchResult {
        title,
        url: Some(String::from_str(url)),
        webpage_url: Some(String::from_str(url)),
        id: Some(id),
        duration: None,
        uploader,
        channel: None,
        artist: None,
        subtitles: None,
        automatic_captions: None,
        search_url: Some(String::from_str(url)),
        provider: String::from_str("tk"),
    }
}

/// The hits for the links found, at most ten; none found is an error.
pub fn tiktok_hits(urls: &Vec<String>) -> (out: Result<Vec<SearchResult>, String>)
    ensures
        urls@.len() == 0 ==> (out matches Err(m) && m@
            == "no TikTok results returned; set BRAVE_SEARCH_API_KEY for reliable TikTok search"@),
        urls@.len() > 0 ==> (out matches Ok(hits) && hits@.len() == (if urls@.len() < 10 {
            urls@.len()
        } else {
            10
        }) && forall|i: int| 0 <= i < hits@.len() ==> tiktok_hit(urls@[i]@, #[trigger] hits@[i])),
{
    if urls.len() == 0 {
        return Err(
            String::from_str(
                "no TikTok results returned; set BRAVE_SEARCH_API_KEY for reliable TikTok search",
            ),
        );
    }
    let n = if urls.len() < 10 {
        urls.len()
    } else {
        10
    };
    let mut hits: Vec<SearchResult> = Vec::new();
    let mut i: usize = 0;
    while i < n
        invariant
            n <= urls.len(),
            i <= n,
            hits@.len() == i,
            forall|j: int| 0 <= j < i ==> tiktok_hit(urls@[j]@, #[trigger] hits@[j]),
        decreases n - i,
    {
        hits.push(tiktok_result_from_url(urls[i].as_str()));
        i += 1;
    }
    Ok(hits)
}

} // verus!
