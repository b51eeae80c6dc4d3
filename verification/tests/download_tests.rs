use firemusic::firecore::discovery::types::{YtdlFormat, YtdlInfo};
use firemusic::firecore::download::session::{
    available_subtitles, download_configs, extras_args, pick_items, resolution_options,
    subtitle_args, subtitles_embeddable, wanted_kinds, wizard_menu, WizardMenu,
};
use firemusic::firecore::download::ytdl::{
    configured_args, preset_args, video_format_filter, DownloadConfig,
};
use firemusic::firecore::download::{handle_download, DownloadPlan, PlanError};

#[test]
fn video_format_filter_best() {
    assert_eq!(video_format_filter("best"), "bv+ba/b");
}

#[test]
fn video_format_filter_resolution() {
    assert_eq!(
        video_format_filter("1920x1080"),
        "bv[height<=1080]+ba/b[height<=1080]"
    );
    assert_eq!(
        video_format_filter("1080"),
        "bv[height<=1080]+ba/b[height<=1080]"
    );
}

#[test]
fn preset_downloads_need_urls() {
    match handle_download("audio", vec![]) {
        Err(PlanError::MissingUrl(m)) => assert_eq!(m, "url required for --download=audio"),
        _ => panic!("expected refusal"),
    }
    match handle_download("video", vec![" https://a.com/v ".to_string()]) {
        Ok(DownloadPlan::Preset { audio, urls }) => {
            assert!(!audio);
            assert_eq!(urls, vec!["https://a.com/v"]);
        }
        _ => panic!("expected a preset plan"),
    }
    match handle_download("interactive", vec![]) {
        Ok(DownloadPlan::Interactive(urls)) => assert!(urls.is_empty()),
        _ => panic!("expected the wizard"),
    }
    assert!(matches!(handle_download("audio", vec!["ftp://x".to_string()]), Err(PlanError::BadUrl(_))));
}

#[test]
fn preset_arguments() {
    assert_eq!(
        preset_args("https://a", true),
        vec!["-x", "--audio-format", "mp3", "--audio-quality", "0", "https://a"]
    );
    assert_eq!(
        preset_args("https://a", false),
        vec!["-f", "bv[height<=1080]+ba/b[height<=1080]", "--merge-output-format", "mp4", "https://a"]
    );
}

#[test]
fn configured_arguments() {
    let common = vec!["--embed-metadata".to_string()];
    let audio = DownloadConfig { format: "flac".to_string(), title: "t".to_string(), is_audio: true, quality: None };
    assert_eq!(
        configured_args("U", &audio, &common),
        vec!["--embed-metadata", "-x", "--audio-format", "flac", "--audio-quality", "0", "-o", "%(title).200B [%(id)s].%(ext)s", "U"]
    );
    let video = DownloadConfig { format: "mkv".to_string(), title: "t".to_string(), is_audio: false, quality: Some("1280x720".to_string()) };
    assert_eq!(
        configured_args("U", &video, &vec![]),
        vec!["-f", "bv[height<=720]+ba/b[height<=720]", "--merge-output-format", "mkv", "-o", "%(title).200B [%(id)s].%(ext)s", "U"]
    );
    let best = DownloadConfig { format: "mp4".to_string(), title: "t".to_string(), is_audio: false, quality: None };
    assert_eq!(configured_args("U", &best, &vec![])[1], "bv+ba/b");
}

fn fmt(res: Option<&str>, vcodec: Option<&str>) -> YtdlFormat {
    YtdlFormat {
        format_id: "f".to_string(),
        ext: "mp4".to_string(),
        resolution: res.map(str::to_string),
        vcodec: vcodec.map(str::to_string),
    }
}

#[test]
fn resolutions_are_sorted_without_repeats() {
    let info = YtdlInfo {
        title: "v".to_string(),
        formats: vec![
            fmt(Some("640x360"), Some("avc1")),
            fmt(Some("1920x1080"), Some("vp9")),
            fmt(Some("audio only"), Some("none")),
            fmt(Some("640x360"), Some("vp9")),
            fmt(Some("256x144"), None),
            fmt(None, Some("avc1")),
        ],
    };
    assert_eq!(resolution_options(&info), vec!["1920x1080", "640x360", "best"]);
}

#[test]
fn subtitle_listing() {
    let out = "[info] Available subtitles for x:\nLanguage Name    Formats\nen       English vtt, srt\n\nde German vtt\nxx\n";
    assert_eq!(available_subtitles(out), vec!["en - English", "de - German"]);
    assert!(available_subtitles("nothing here").is_empty());
}

#[test]
fn subtitle_arguments() {
    let avail = vec!["en - English".to_string(), "de - German".to_string()];
    assert_eq!(
        subtitle_args(&avail, &vec![0, 1], 0, true),
        vec!["--sub-langs", "en,de", "--embed-subs"]
    );
    assert_eq!(
        subtitle_args(&avail, &vec![1], 0, false),
        vec!["--sub-langs", "de", "--write-subs", "--write-auto-subs"]
    );
}

#[test]
fn wizard_choices() {
    assert_eq!(wanted_kinds(2), (true, true));
    assert_eq!(wanted_kinds(1), (false, true));
    let formats = wizard_menu(WizardMenu::AudioFormats);
    assert_eq!(formats, vec!["mp3", "m4a", "wav", "flac", "opus"]);
    assert_eq!(pick_items(&formats, &vec![1, 3]), vec!["m4a", "flac"]);
    let (args, subs) = extras_args(&vec![0, 2]);
    assert_eq!(args, vec!["--embed-metadata"]);
    assert!(subs);
    assert!(subtitles_embeddable(&vec!["m4a".to_string()], &vec![]));
    assert!(!subtitles_embeddable(&vec!["mp3".to_string()], &vec![]));
    assert!(subtitles_embeddable(&vec![], &vec!["mkv".to_string()]));
}

#[test]
fn one_download_per_format() {
    let c = download_configs(&vec!["mp3".to_string()], &vec!["mp4".to_string(), "webm".to_string()], "Song", "720");
    assert_eq!(c.len(), 3);
    assert!(c[0].is_audio && c[0].format == "mp3" && c[0].quality.is_none());
    assert!(!c[2].is_audio && c[2].format == "webm" && c[2].quality.as_deref() == Some("720"));
    assert_eq!(c[1].title, "Song");
}
