use firemusic::firecore::discovery::session::{
    audio_quality_format, duration_label, end_step, menu_action, no_results_step,
    provider_from_choice, provider_labels, read_selection, results_menu_tail, search_step,
    split_provider_prefix, track_action, EndStep, MenuAction, NoResultsStep, SearchStep,
    Selection, TrackAction,
};
use firemusic::firecore::discovery::tiktok::{
    brave_tiktok_urls, first_tiktok_source, next_tiktok_source, TikTokSource,
    bing_search_url, brave_search_url, collect_tiktok_urls, ddg_page_urls, duckduckgo_search_url,
    extract_tiktok_urls, push_tiktok_url, tiktok_hits, tiktok_offset, tiktok_result_from_url,
    tiktok_site_query, usable_api_key,
};
use firemusic::firecore::discovery::types::{
    normalize_soundcloud_url, providers, JsonShape, SearchResult,
};
use firemusic::firecore::discovery::ytdl::{
    assign_provider, build_search_query, find_provider, playlist_items_range, search_args,
};
use firemusic::text::lines_of;

fn result(provider: &str, url: Option<&str>, webpage_url: Option<&str>) -> SearchResult {
    SearchResult {
        title: "title".to_string(),
        url: url.map(str::to_string),
        webpage_url: webpage_url.map(str::to_string),
        id: None,
        duration: None,
        uploader: None,
        channel: None,
        artist: None,
        subtitles: None,
        automatic_captions: None,
        search_url: None,
        provider: provider.to_string(),
    }
}

#[test]
fn playlist_items_range_pages() {
    assert_eq!(playlist_items_range(1), "1-10");
    assert_eq!(playlist_items_range(2), "11-20");
    assert_eq!(playlist_items_range(3), "21-30");
}

#[test]
fn build_search_query_youtube() {
    let all = providers();
    let yt = &all[0];
    assert_eq!(build_search_query(yt, "daft punk", 1), "ytsearch10:daft punk");
    assert_eq!(build_search_query(yt, "daft punk", 2), "ytsearch20:daft punk");
}

#[test]
fn build_search_query_youtube_music() {
    let all = providers();
    let ym = &all[1];
    assert_eq!(
        build_search_query(ym, "lofi", 1),
        "https://music.youtube.com/search?q=lofi#songs"
    );
}

#[test]
fn parse_search_lines_assigns_provider() {
    let line = r#"{"title":"Track","url":"https://example.com/track"}"#;
    let lines = lines_of(line);
    assert_eq!(lines.len(), 1);
    let mut hit = result("", Some("https://example.com/track"), None);
    hit.title = "Track".to_string();
    let hit = assign_provider(hit, "yt");
    assert_eq!(hit.provider, "yt");
    assert_eq!(hit.title, "Track");
}

#[test]
fn types_soundcloud_search_prefers_public_webpage_url() {
    let mut res = result(
        "sc",
        Some("https://api.soundcloud.com/tracks/soundcloud%3Atracks%3A1250206453"),
        Some("https://soundcloud.com/lofi-beats-1/example"),
    );
    res.search_url = normalize_soundcloud_url(&res);
    assert_eq!(res.get_playable_url(), "https://soundcloud.com/lofi-beats-1/example");
}

#[test]
fn discovery_soundcloud_search_prefers_public_webpage_url() {
    let res = assign_provider(
        result(
            "",
            Some("https://api.soundcloud.com/tracks/soundcloud%3Atracks%3A1250206453"),
            Some("https://soundcloud.com/lofi-beats-1/example"),
        ),
        "sc",
    );
    assert_eq!(res.get_playable_url(), "https://soundcloud.com/lofi-beats-1/example");
}

#[test]
fn types_tiktok_id_fallback_uses_extractor_compatible_url() {
    let mut res = result("tk", None, None);
    res.id = Some("7519269824963317022".to_string());
    assert_eq!(
        res.get_playable_url(),
        "https://www.tiktok.com/@_/video/7519269824963317022"
    );
}

#[test]
fn discovery_tiktok_id_fallback_uses_extractor_compatible_url() {
    let mut res = result("tk", None, None);
    res.id = Some("7519269824963317022".to_string());
    assert_eq!(
        res.get_playable_url(),
        "https://www.tiktok.com/@_/video/7519269824963317022"
    );
}

const HTML: &str = r#"
    <a href="https://www.tiktok.com/@artist/video/7519269824963317022?lang=en">one</a>
    <a href="https%3A%2F%2Fwww.tiktok.com%2F%40artist%2Fvideo%2F7519269824963317022%3Fis_from_webapp%3D1">two</a>
    <a href="https://www.tiktok.com/@artist/photo/7519269824963317022">photo</a>
"#;

#[test]
fn tiktok_tiktok_url_extraction_decodes_and_deduplicates() {
    assert_eq!(
        extract_tiktok_urls(HTML),
        vec!["https://www.tiktok.com/@artist/video/7519269824963317022"]
    );
}

#[test]
fn discovery_tiktok_url_extraction_decodes_and_deduplicates() {
    assert_eq!(
        extract_tiktok_urls(HTML),
        vec!["https://www.tiktok.com/@artist/video/7519269824963317022"]
    );
}

#[test]
fn youtube_id_gives_a_watch_link() {
    let mut res = result("yt", Some("not-a-link"), None);
    res.id = Some("abc".to_string());
    assert_eq!(res.get_playable_url(), "https://www.youtube.com/watch?v=abc");
}

#[test]
fn playable_url_order_of_preference() {
    let mut res = result("yt", Some("https://media"), Some("https://page"));
    assert_eq!(res.get_playable_url(), "https://media");
    res.provider = "tk".to_string();
    assert_eq!(res.get_playable_url(), "https://page");
    res.search_url = Some("http://search".to_string());
    assert_eq!(res.get_playable_url(), "http://search");
    let bare = result("sc", Some("relative"), None);
    assert_eq!(bare.get_playable_url(), "relative");
    let none = result("sc", None, None);
    assert_eq!(none.get_playable_url(), "");
    let mut tk = result("tk", None, None);
    tk.id = Some("12a".to_string());
    assert_eq!(tk.get_playable_url(), "");
}

#[test]
fn uploader_preference() {
    let mut res = result("yt", None, None);
    assert_eq!(res.get_uploader(), "?");
    res.uploader = Some("u".to_string());
    assert_eq!(res.get_uploader(), "u");
    res.channel = Some("c".to_string());
    assert_eq!(res.get_uploader(), "c");
    res.artist = Some("a".to_string());
    assert_eq!(res.get_uploader(), "a");
}

#[test]
fn subtitles_need_a_non_empty_object() {
    let mut res = result("yt", None, None);
    assert!(!res.has_subs());
    res.subtitles = Some(JsonShape::Object(0));
    assert!(!res.has_subs());
    res.automatic_captions = Some(JsonShape::Other);
    assert!(!res.has_subs());
    res.automatic_captions = Some(JsonShape::Object(2));
    assert!(res.has_subs());
}

#[test]
fn soundcloud_normalization_needs_a_public_page() {
    let res = result("sc", None, Some("https://api.soundcloud.com/x"));
    assert_eq!(normalize_soundcloud_url(&res), None);
    let other = assign_provider(result("", None, Some("https://soundcloud.com/a")), "yt");
    assert_eq!(other.search_url, None);
}

#[test]
fn search_arguments_per_provider() {
    assert_eq!(
        search_args("yt", "daft punk", 2),
        vec!["-j", "--playlist-items", "11-20", "--flat-playlist", "ytsearch20:daft punk"]
    );
    assert_eq!(
        search_args("ym", "lofi", 1),
        vec!["-j", "--playlist-items", "1-10", "https://music.youtube.com/search?q=lofi#songs"]
    );
    assert_eq!(find_provider("sc"), Some(2));
    assert_eq!(find_provider("zz"), None);
}

#[test]
fn push_keeps_only_new_video_links() {
    let mut urls: Vec<String> = Vec::new();
    push_tiktok_url(&mut urls, "https://www.tiktok.com/@a/video/123/?x=1");
    push_tiktok_url(&mut urls, "https://www.tiktok.com/@a/video/123#frag");
    push_tiktok_url(&mut urls, "https://www.tiktok.com/@a/video/12x");
    push_tiktok_url(&mut urls, "https://example.com/video/5");
    assert_eq!(urls, vec!["https://www.tiktok.com/@a/video/123"]);
    let cands = vec![
        "https://www.tiktok.com/@b/video/9".to_string(),
        "https://www.tiktok.com/@b/video/9/".to_string(),
        "junk".to_string(),
    ];
    assert_eq!(collect_tiktok_urls(&cands), vec!["https://www.tiktok.com/@b/video/9"]);
}

#[test]
fn tiktok_hit_from_link() {
    let r = tiktok_result_from_url("https://www.tiktok.com/@artist/video/42");
    assert_eq!(r.title, "TikTok video 42");
    assert_eq!(r.id.as_deref(), Some("42"));
    assert_eq!(r.uploader.as_deref(), Some("@artist"));
    assert_eq!(r.provider, "tk");
    assert_eq!(r.search_url.as_deref(), Some("https://www.tiktok.com/@artist/video/42"));
    let plain = tiktok_result_from_url("https://example.com/x/7");
    assert_eq!(plain.uploader, None);
}

#[test]
fn tiktok_hits_take_ten_and_refuse_none() {
    let none: Vec<String> = Vec::new();
    assert_eq!(
        tiktok_hits(&none).err().unwrap(),
        "no TikTok results returned; set BRAVE_SEARCH_API_KEY for reliable TikTok search"
    );
    let many: Vec<String> = (0..12).map(|i| format!("https://www.tiktok.com/@a/video/{}", i)).collect();
    let hits = tiktok_hits(&many).ok().unwrap();
    assert_eq!(hits.len(), 10);
    assert_eq!(hits[3].title, "TikTok video 3");
}

#[test]
fn search_request_urls() {
    assert_eq!(tiktok_site_query("  lofi   beats "), "site:tiktok.com/@ inurl:/video/ lofi beats");
    let enc = "site%3Atiktok.com%2F%40%20inurl%3A%2Fvideo%2F%20lofi%20beats";
    assert_eq!(
        brave_search_url("lofi beats", 10),
        format!("https://api.search.brave.com/res/v1/web/search?q={}&count=10&offset=10", enc)
    );
    assert_eq!(
        bing_search_url("lofi beats", 0),
        format!("https://www.bing.com/search?q={}&first=1", enc)
    );
    assert_eq!(
        duckduckgo_search_url("lofi beats", 20),
        format!("https://duckduckgo.com/html/?q={}&s=20", enc)
    );
    assert_eq!(tiktok_offset(0), 0);
    assert_eq!(tiktok_offset(3), 20);
}

#[test]
fn api_key_must_not_be_blank() {
    assert_eq!(usable_api_key(Some("  ".to_string())), None);
    assert_eq!(usable_api_key(None), None);
    assert_eq!(usable_api_key(Some("k".to_string())), Some("k".to_string()));
}

#[test]
fn duckduckgo_pages() {
    assert!(ddg_page_urls("<script src=anomaly.js> https://www.tiktok.com/@a/video/1\"").is_empty());
    let body = "<a href=\"/l/?uddg=https%3A%2F%2Fwww.tiktok.com%2F%40a%2Fvideo%2F77&amp;rut=x\">";
    assert_eq!(ddg_page_urls(body), vec!["https://www.tiktok.com/@a/video/77"]);
}

#[test]
fn typed_query_prefixes() {
    let (p, q) = split_provider_prefix("sc:lofi");
    assert_eq!(p, vec!["sc"]);
    assert_eq!(q, "lofi");
    let (p, q) = split_provider_prefix("artist: song");
    assert_eq!(p, vec!["yt"]);
    assert_eq!(q, "artist: song");
    let (p, q) = split_provider_prefix("plain");
    assert_eq!(p, vec!["yt"]);
    assert_eq!(q, "plain");
}

#[test]
fn provider_menu() {
    assert_eq!(provider_labels(), vec!["youtube", "youtube-music", "soundcloud", "tiktok"]);
    assert_eq!(provider_from_choice(&vec![3]), "tk");
    assert_eq!(provider_from_choice(&vec![]), "yt");
}

#[test]
fn results_menu_and_picks() {
    assert_eq!(
        results_menu_tail(1),
        vec!["[\u{2794} next page]", "[\u{2794} change provider]", "[\u{2794} new search]"]
    );
    let tail = results_menu_tail(2);
    assert_eq!(tail[1], "[\u{2794} previous page]");
    assert!(matches!(menu_action("[\u{2794} new search]"), Some(MenuAction::NewSearch)));
    assert!(menu_action("----").is_none());

    let results = vec![result("yt", Some("https://a"), None), result("yt", None, None)];
    let mut items = vec!["a".to_string(), "b".to_string(), "----".to_string()];
    items.extend(results_menu_tail(2));
    let sel = read_selection(&results, &items, &vec![0, 1, 2]);
    assert_eq!(sel.urls, vec!["https://a"]);
    assert!(!sel.next_page && !sel.prev_page && !sel.switch_provider && !sel.new_search);
    let sel = read_selection(&results, &items, &vec![4]);
    assert!(sel.prev_page);
}

#[test]
fn search_steps() {
    let s = Selection { urls: vec![], next_page: true, prev_page: true, switch_provider: false, new_search: false };
    assert!(matches!(search_step(2, s), SearchStep::Page(3)));
    let s = Selection { urls: vec![], next_page: false, prev_page: true, switch_provider: false, new_search: false };
    assert!(matches!(search_step(1, s), SearchStep::Page(1)));
    let s = Selection { urls: vec!["u".to_string()], next_page: false, prev_page: false, switch_provider: false, new_search: false };
    assert!(matches!(search_step(1, s), SearchStep::ActOnOne(u) if u == "u"));
    let s = Selection { urls: vec!["u".to_string(), "v".to_string()], next_page: false, prev_page: false, switch_provider: false, new_search: false };
    assert!(matches!(search_step(1, s), SearchStep::Download(v) if v.len() == 2));
    assert!(matches!(no_results_step(Some(vec![1]), 3), NoResultsStep::Page(2)));
    assert!(matches!(no_results_step(None, 3), NoResultsStep::Quit));
    assert!(matches!(track_action(Some(vec![1])), TrackAction::PlayWithQuality));
    assert!(matches!(track_action(None), TrackAction::Back));
    assert!(matches!(end_step(Some(vec![3])), EndStep::Download));
    assert_eq!(audio_quality_format(Some(1)), "bestaudio[abr<=128]/best");
    assert_eq!(audio_quality_format(None), "bestaudio/best");
}

#[test]
fn duration_labels() {
    assert_eq!(duration_label(65), "(01:05)");
    assert_eq!(duration_label(3725), "(62:05)");
}

#[test]
fn search_urls_encode_non_ascii_as_utf8() {
    assert_eq!(
        duckduckgo_search_url("café ñ", 0),
        "https://duckduckgo.com/html/?q=site%3Atiktok.com%2F%40%20inurl%3A%2Fvideo%2F%20caf%C3%A9%20%C3%B1&s=0"
    );
    assert_eq!(
        duckduckgo_search_url("€ 🎵", 0),
        "https://duckduckgo.com/html/?q=site%3Atiktok.com%2F%40%20inurl%3A%2Fvideo%2F%20%E2%82%AC%20%F0%9F%8E%B5&s=0"
    );
}

#[test]
fn duckduckgo_links_decode_utf8_escapes() {
    let body = "<a href=\"/l/?uddg=https%3a%2f%2fwww.tiktok.com%2f%40caf%C3%A9%2Fvideo%2F9&amp;rut=y\">";
    assert_eq!(ddg_page_urls(body), vec!["https://www.tiktok.com/@café/video/9"]);
    let bad = "<a href=\"/l/?uddg=https%3A%2F%2Fwww.tiktok.com%2F%40%FF%2Fvideo%2F9&amp;rut=y\">";
    assert!(ddg_page_urls(bad).is_empty());
}

#[test]
fn brave_answers() {
    let body = r#"{"web":{"results":[
        {"url":"https://www.tiktok.com/@a/video/1?lang=en"},
        {"url":"https://example.com/x"},
        {"url":42},
        {"title":"no url"},
        {"url":"https://www.tiktok.com/@a/video/1/"},
        {"url":"https://www.tiktok.com/@b/video/2"}
    ]}}"#;
    assert_eq!(
        brave_tiktok_urls(body).unwrap(),
        vec!["https://www.tiktok.com/@a/video/1", "https://www.tiktok.com/@b/video/2"]
    );
    assert_eq!(brave_tiktok_urls(r#"{"query":{}}"#).unwrap(), Vec::<String>::new());
    assert!(brave_tiktok_urls("<html>rate limited</html>").is_none());
}

#[test]
fn tiktok_sources_fall_back_in_order() {
    assert!(first_tiktok_source(true) == TikTokSource::Brave);
    assert!(first_tiktok_source(false) == TikTokSource::Bing);
    assert!(next_tiktok_source(TikTokSource::Brave, false) == Some(TikTokSource::Bing));
    assert!(next_tiktok_source(TikTokSource::Bing, false) == Some(TikTokSource::DuckDuckGo));
    assert!(next_tiktok_source(TikTokSource::DuckDuckGo, false).is_none());
    assert!(next_tiktok_source(TikTokSource::Brave, true).is_none());
    assert!(next_tiktok_source(TikTokSource::Bing, true).is_none());
}
