//! The yt-dlp command lines for downloads.
use vstd::prelude::*;
use crate::text::{after_last, after_last_char, str_eq, views};

verus! {

/// How one file is to be fetched.
#[derive(Debug)]
pub struct DownloadConfig {
    pub format: String,
    pub title: String,
    pub is_audio: bool,
    pub quality: Option<String>,
}

/// The yt-dlp format filter for a video quality: any height for `best`, else the
/// height after the last `x` of `WIDTHxHEIGHT` (or the whole text) as a ceiling.
pub open spec fn format_filter(quality: Seq<char>) -> Seq<char> {
    if quality == "best"@ {
        "bv+ba/b"@
    } else {
        let h = after_last(quality, 'x');
        "bv[height<="@ + h + "]+ba/b[height<="@ + h + "]"@
    }
}

/// The yt-dlp format filter for a video quality.
pub fn video_format_filter(quality: &str) -> (out: String)
    ensures
        out@ == format_filter(quality@),
{
    if str_eq(quality, "best") {
        String::from_str("bv+ba/b")
    } else {
        let h = after_last_char(quality, 'x');
        let mut out = String::from_str("bv[height<=");
        out.append(h.as_str());
        out.append("]+ba/b[height<=");
        out.append(h.as_str());
        out.append("]");
        out
    }
}

/// The yt-dlp arguments of the one-step downloads: best-quality mp3 audio, or video of
/// at most 1080 lines and audio merged into mp4.
pub open spec fn preset_arg_list(url: Seq<char>, is_audio: bool) -> Seq<Seq<char>> {
    if is_audio {
        seq!["-x"@, "--audio-format"@, "mp3"@, "--audio-quality"@, "0"@, url]
    } else {
        seq!["-f"@, "bv[height<=1080]+ba/b[height<=1080]"@, "--merge-output-format"@, "mp4"@, url]
    }
}

/// The yt-dlp arguments of a one-step download of `url`.
pub fn preset_args(url: &str, is_audio: bool) -> (out: Vec<String>)
    ensures
        views(out@) == preset_arg_list(url@, is_audio),
{
    let mut out: Vec<String> = Vec::new();
    if is_audio {
        out.push(String::from_str("-x"));
        out.push(String::from_str("--audio-format"));
        out.push(String::from_str("mp3"));
        out.push(String::from_str("--audio-quality"));
        out.push(String::from_str("0"));
    } else {
        out.push(String::from_str("-f"));
        out.push(String::from_str("bv[height<=1080]+ba/b[height<=1080]"));
        out.push(String::from_str("--merge-output-format"));
        out.push(String::from_str("mp4"));
    }
    out.push(String::from_str(url));
    assert(views(out@) =~= preset_arg_list(url@, is_audio));
    out
}

/// The quality a video download asks for: the one chosen, else `best`.
pub open spec fn quality_or_best(q: Option<String>) -> Seq<char> {
    match q {
        Some(s) => s@,
        None => "best"@,
    }
}

/// The yt-dlp arguments of a configured download: the common ones, then the audio
/// extraction or the video format and container, then the output name and the URL.
pub open spec fn configured_arg_list(url: Seq<char>, config: DownloadConfig, common: Seq<Seq<char>>) -> Seq<Seq<char>> {
    let middle = if config.is_audio {
        seq!["-x"@, "--audio-format"@, config.format@, "--audio-quality"@, "0"@]
    } else {
        seq![
            "-f"@,
            format_filter(quality_or_best(config.quality)),
            "--merge-output-format"@,
            config.format@,
        ]
    };
    common + middle + seq!["-o"@, "%(title).200B [%(id)s].%(ext)s"@, url]
}

/// Every configured download, audio or video, passes the common options (metadata,
/// thumbnail, subtitles) first, and ends with the output name and then the URL.
pub proof fn lemma_common_args_first(url: Seq<char>, config: DownloadConfig, common: Seq<Seq<char>>)
    ensures
        ({
            let args = configured_arg_list(url, config, common);
            &&& common.len() + 3 <= args.len()
            &&& args.take(common.len() as int) == common
            &&& args[args.len() - 3] == "-o"@
            &&& args[args.len() - 2] == "%(title).200B [%(id)s].%(ext)s"@
            &&& args.last() == url
        }),
{
    let args = configured_arg_list(url, config, common);
    assert(args.take(common.len() as int) =~= common);
}

/// The yt-dlp arguments of a configured download of `url`.
pub fn configured_args(url: &str, config: &DownloadConfig, common_args: &Vec<String>) -> (out: Vec<String>)
    ensures
        views(out@) == configured_arg_list(url@, *config, views(common_args@)),
        views(out@).take(common_args@.len() as int) == views(common_args@),
        views(out@).last() == url@,
{
    proof {
        lemma_common_args_first(url@, *config, views(common_args@));
    }
    let mut out: Vec<String> = Vec::new();
    let mut i: usize = 0;
    while i < common_args.len()
        invariant
            i <= common_args.len(),
            views(out@) == views(common_args@).take(i as int),
        decreases common_args.len() - i,
    {
        let ghost before = views(out@);
        out.push(common_args[i].clone());
        assert(views(out@) =~= before.push(common_args@[i as int]@));
        assert(views(common_args@).take(i + 1) =~= views(common_args@).take(i as int).push(
            common_args@[i as int]@,
        ));
        i += 1;
    }
    assert(views(common_args@).take(i as int) =~= views(common_args@));
    let ghost head = views(out@);
    if config.is_audio {
        out.push(String::from_str("-x"));
        out.push(String::from_str("--audio-format"));
        out.push(config.format.clone());
        out.push(String::from_str("--audio-quality"));
        out.push(String::from_str("0"));
    } else {
        let filter = match &config.quality {
            Some(q) => video_format_filter(q.as_str()),
            None => video_format_filter("best"),
        };
        out.push(String::from_str("-f"));
        out.push(filter);
        out.push(String::from_str("--merge-output-format"));
        out.push(config.format.clone());
    }
    out.push(String::from_str("-o"));
    out.push(String::from_str("%(title).200B [%(id)s].%(ext)s"));
    out.push(String::from_str(url));
    assert(views(out@) =~= configured_arg_list(url@, *config, views(common_args@)));
    out
}

} // verus!
