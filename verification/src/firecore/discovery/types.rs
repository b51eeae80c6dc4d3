//! What a search yields, and the providers it can ask.
use vstd::prelude::*;
use crate::text::{all_ascii_digits, all_digits, has_prefix, starts_with, str_eq};

verus! {

/// The shape of a JSON value as far as the player reads it: an object with so many
/// entries, or anything else.
#[derive(Debug)]
pub enum JsonShape {
    Object(usize),
    Other,
}

/// One hit of a search, as yt-dlp describes it (or as a TikTok link is read).
#[derive(Debug)]
pub struct SearchResult {
    pub title: String,
    pub url: Option<String>,
    pub webpage_url: Option<String>,
    pub id: Option<String>,
    /// Length in whole seconds.
    pub duration: Option<u64>,
    pub uploader: Option<String>,
    pub channel: Option<String>,
    pub artist: Option<String>,
    pub subtitles: Option<JsonShape>,
    pub automatic_captions: Option<JsonShape>,
    pub search_url: Option<String>,
    pub provider: String,
}

/// A provider the player can search.
#[derive(Debug)]
pub struct SearchProvider {
    pub id: &'static str,
    pub label: &'static str,
    pub prefix: &'static str,
    pub suffix: &'static str,
}

/// One format yt-dlp offers for a video.
#[derive(Debug)]
pub struct YtdlFormat {
    pub format_id: String,
    pub ext: String,
    pub resolution: Option<String>,
    pub vcodec: Option<String>,
}

/// What yt-dlp reports about one video.
#[derive(Debug)]
pub struct YtdlInfo {
    pub title: String,
    pub formats: Vec<YtdlFormat>,
}

/// The JSON value is a non-empty object.
pub open spec fn non_empty_object(v: Option<JsonShape>) -> bool {
    v matches Some(JsonShape::Object(n)) && n > 0
}

/// The optional text is present and starts with `http`.
pub open spec fn is_http(o: Option<String>) -> bool {
    o matches Some(u) && has_prefix(u@, "http"@)
}

/// The text of an optional string, empty when absent.
pub open spec fn text_or_empty(o: Option<String>) -> Seq<char> {
    match o {
        Some(u) => u@,
        None => Seq::empty(),
    }
}

/// The URL the player should open for a hit: the search URL, then (for SoundCloud and
/// TikTok) the web page, then the media URL, then the web page, each when it is an
/// http(s) link; else a YouTube watch link built from the id, or a TikTok video link
/// from an all-digit id; else the media URL as it stands, or nothing.
pub open spec fn playable_url(r: SearchResult) -> Seq<char> {
    let p = r.provider@;
    if is_http(r.search_url) {
        text_or_empty(r.search_url)
    } else if (p == "sc"@ || p == "tk"@) && is_http(r.webpage_url) {
        text_or_empty(r.webpage_url)
    } else if is_http(r.url) {
        text_or_empty(r.url)
    } else if is_http(r.webpage_url) {
        text_or_empty(r.webpage_url)
    } else if r.id is Some && (p == "yt"@ || p == "ym"@) {
        "https://www.youtube.com/watch?v="@ + text_or_empty(r.id)
    } else if p == "tk"@ && r.id is Some && all_digits(text_or_empty(r.id)) {
        "https://www.tiktok.com/@_/video/"@ + text_or_empty(r.id)
    } else {
        text_or_empty(r.url)
    }
}

/// Who made a hit: the artist, else the channel, else the uploader, else `?`.
pub open spec fn uploader_of(r: SearchResult) -> Seq<char> {
    match (r.artist, r.channel, r.uploader) {
        (Some(a), _, _) => a@,
        (None, Some(c), _) => c@,
        (None, None, Some(u)) => u@,
        (None, None, None) => "?"@,
    }
}

/// Whether `o` is an http(s) link.
fn http_link(o: &Option<String>) -> (b: bool)
    ensures
        b == is_http(*o),
{
    match o {
        Some(u) => starts_with(u.as_str(), "http"),
        None => false,
    }
}

/// A copy of an optional string's text, empty when absent.
fn copy_or_empty(o: &Option<String>) -> (out: String)
    ensures
        out@ == text_or_empty(*o),
{
    match o {
        Some(u) => u.clone(),
        None => String::new(),
    }
}

impl SearchResult {
    /// Whether the hit has subtitles or automatic captions.
    pub fn has_subs(&self) -> (b: bool)
        ensures
            b == (non_empty_object(self.subtitles) || non_empty_object(self.automatic_captions)),
    {
        let s = match &self.subtitles {
            Some(JsonShape::Object(n)) => *n > 0,
            _ => false,
        };
        let a = match &self.automatic_captions {
            Some(JsonShape::Object(n)) => *n > 0,
            _ => false,
        };
        s || a
    }

    /// The URL to open for this hit.
    pub fn get_playable_url(&self) -> (out: String)
        ensures
            out@ == playable_url(*self),
    {
        let p = self.provider.as_str();
        if http_link(&self.search_url) {
            return copy_or_empty(&self.search_url);
        }
        if (str_eq(p, "sc") || str_eq(p, "tk")) && http_link(&self.webpage_url) {
            return copy_or_empty(&self.webpage_url);
        }
        if http_link(&self.url) {
            return copy_or_empty(&self.url);
        }
        if http_link(&self.webpage_url) {
            return copy_or_empty(&self.webpage_url);
        }
        if let Some(id) = &self.id {
            if str_eq(p, "yt") || str_eq(p, "ym") {
                let mut out = String::from_str("https://www.youtube.com/watch?v=");
                out.append(id.as_str());
                return out;
            }
        }
        if str_eq(p, "tk") {
            if let Some(id) = &self.id {
                if all_ascii_digits(id.as_str()) {
                    let mut out = String::from_str("https://www.tiktok.com/@_/video/");
                    out.append(id.as_str());
                    return out;
                }
            }
        }
        copy_or_empty(&self.url)
    }

    /// Who made the hit.
    pub fn get_uploader(&self) -> (out: &str)
        ensures
            out@ == uploader_of(*self),
    {
        if let Some(a) = &self.artist {
            return a.as_str();
        }
        if let Some(c) = &self.channel {
            return c.as_str();
        }
        if let Some(u) = &self.uploader {
            return u.as_str();
        }
        "?"
    }
}

/// The providers, in menu order: id, label, query prefix, query suffix.
pub open spec fn provider_table() -> Seq<(Seq<char>, Seq<char>, Seq<char>, Seq<char>)> {
    seq![
        ("yt"@, "youtube"@, "ytsearch"@, ""@),
        ("ym"@, "youtube-music"@, "https://music.youtube.com/search?q="@, "#songs"@),
        ("sc"@, "soundcloud"@, "scsearch"@, ""@),
        ("tk"@, "tiktok"@, ""@, ""@),
    ]
}

/// The fields of a provider.
pub open spec fn provider_view(p: SearchProvider) -> (Seq<char>, Seq<char>, Seq<char>, Seq<char>) {
    (p.id@, p.label@, p.prefix@, p.suffix@)
}

/// The providers the player can search, in menu order.
pub fn providers() -> (out: Vec<SearchProvider>)
    ensures
        out@.len() == provider_table().len(),
        forall|i: int| 0 <= i < out@.len() ==> provider_view(#[trigger] out@[i]) == provider_table()[i],
{
    let mut out: Vec<SearchProvider> = Vec::new();
    out.push(SearchProvider { id: "yt", label: "youtube", prefix: "ytsearch", suffix: "" });
    out.push(
        SearchProvider {
            id: "ym",
            label: "youtube-music",
            prefix: "https://music.youtube.com/search?q=",
            suffix: "#songs",
        },
    );
    out.push(SearchProvider { id: "sc", label: "soundcloud", prefix: "scsearch", suffix: "" });
    out.push(SearchProvider { id: "tk", label: "tiktok", prefix: "", suffix: "" });
    out
}

/// The media URL when it is a public `https://soundcloud.com/` page.
pub open spec fn soundcloud_page(r: SearchResult) -> Option<Seq<char>> {
    match r.webpage_url {
        Some(u) => if has_prefix(u@, "https://soundcloud.com/"@) {
            Some(u@)
        } else {
            None
        },
        None => None,
    }
}

/// The view of an optional string.
pub open spec fn opt_text(o: Option<String>) -> Option<Seq<char>> {
    match o {
        Some(s) => Some(s@),
        None => None,
    }
}

/// The hit's web page, when it is a public SoundCloud page.
pub fn normalize_soundcloud_url(result: &SearchResult) -> (out: Option<String>)
    ensures
        opt_text(out) == soundcloud_page(*result),
{
    match &result.webpage_url {
        Some(u) => if starts_with(u.as_str(), "https://soundcloud.com/") {
            Some(u.clone())
        } else {
            None
        },
        None => None,
    }
}

} // verus!
