//! The decisions of the interactive download wizard: what each answer selects, the
//! quality list offered, the subtitle languages found, and the downloads that follow.
//! The prompts and the yt-dlp runs are the caller's.
use vstd::prelude::*;
use crate::firecore::discovery::types::{YtdlFormat, YtdlInfo};
use crate::firecore::download::ytdl::DownloadConfig;
use crate::text::{
    contains, contains_seq, insert_sorted, is_blank_str, join_with, lines, lines_of, split_on,
    split_str, str_eq, strictly_sorted, trim, views, words, words_of, lemma_split_nonempty,
};

verus! {

/// What can be fetched, in menu order.
pub open spec fn kind_options() -> Seq<Seq<char>> {
    seq!["audio only"@, "video only"@, "both (audio + video)"@]
}

/// The audio formats offered, in menu order.
pub open spec fn audio_format_options() -> Seq<Seq<char>> {
    seq!["mp3"@, "m4a"@, "wav"@, "flac"@, "opus"@]
}

/// The video containers offered, in menu order.
pub open spec fn video_container_options() -> Seq<Seq<char>> {
    seq!["mp4"@, "mkv"@, "webm"@]
}

/// The extras offered, in menu order.
pub open spec fn extra_options() -> Seq<Seq<char>> {
    seq!["embed metadata"@, "embed thumbnail"@, "check subtitles"@]
}

/// How subtitles can be kept, in menu order.
pub open spec fn subtitle_method_options() -> Seq<Seq<char>> {
    seq!["integrated (embedded in file)"@, "separate file (.srt/.vtt)"@]
}

/// The menu lines for one of the wizard's fixed menus.
#[derive(Debug)]
pub enum WizardMenu {
    Kinds,
    AudioFormats,
    VideoContainers,
    Extras,
    SubtitleMethods,
}

/// The lines of a fixed menu.
pub open spec fn menu_lines(m: WizardMenu) -> Seq<Seq<char>> {
    match m {
        WizardMenu::Kinds => kind_options(),
        WizardMenu::AudioFormats => audio_format_options(),
        WizardMenu::VideoContainers => video_container_options(),
        WizardMenu::Extras => extra_options(),
        WizardMenu::SubtitleMethods => subtitle_method_options(),
    }
}

/// The lines of one of the wizard's fixed menus.
pub fn wizard_menu(m: WizardMenu) -> (out: Vec<String>)
    ensures
        views(out@) == menu_lines(m),
{
    let mut out: Vec<String> = Vec::new();
    match m {
        WizardMenu::Kinds => {
            out.push(String::from_str("audio only"));
            out.push(String::from_str("video only"));
            out.push(String::from_str("both (audio + video)"));
        },
        WizardMenu::AudioFormats => {
            out.push(String::from_str("mp3"));
            out.push(String::from_str("m4a"));
            out.push(String::from_str("wav"));
            out.push(String::from_str("flac"));
            out.push(String::from_str("opus"));
        },
        WizardMenu::VideoContainers => {
            out.push(String::from_str("mp4"));
            out.push(String::from_str("mkv"));
            out.push(String::from_str("webm"));
        },
        WizardMenu::Extras => {
            out.push(String::from_str("embed metadata"));
            out.push(String::from_str("embed thumbnail"));
            out.push(String::from_str("check subtitles"));
        },
        WizardMenu::SubtitleMethods => {
            out.push(String::from_str("integrated (embedded in file)"));
            out.push(String::from_str("separate file (.srt/.vtt)"));
        },
    }
    assert(views(out@) =~= menu_lines(m));
    out
}

/// Whether the kind picked (audio, video, both) asks for audio, and for video.
pub fn wanted_kinds(kind: usize) -> (out: (bool, bool))
    ensures
        out.0 == (kind == 0 || kind == 2),
        out.1 == (kind == 1 || kind == 2),
{
    (kind == 0 || kind == 2, kind == 1 || kind == 2)
}

/// The menu lines picked, in the order of the picks.
pub fn pick_items(options: &Vec<String>, picks: &Vec<usize>) -> (out: Vec<String>)
    requires
        forall|k: int| 0 <= k < picks@.len() ==> #[trigger] picks@[k] < options@.len(),
    ensures
        out@.len() == picks@.len(),
        forall|k: int| 0 <= k < picks@.len() ==> (#[trigger] out@[k])@ == options@[picks@[k] as int]@,
{
    let mut out: Vec<String> = Vec::new();
    let mut k: usize = 0;
    while k < picks.len()
        invariant
            forall|j: int| 0 <= j < picks@.len() ==> #[trigger] picks@[j] < options@.len(),
            k <= picks.len(),
            out@.len() == k,
            forall|j: int| 0 <= j < k ==> (#[trigger] out@[j])@ == options@[picks@[j] as int]@,
        decreases picks.len() - k,
    {
        out.push(options[picks[k]].clone());
        k += 1;
    }
    out
}

/// The resolutions of the formats that carry video (a format without a video codec
/// counts as `none`), in the order listed, repeats included.
pub open spec fn video_resolutions(formats: Seq<YtdlFormat>) -> Seq<Seq<char>>
    decreases formats.len(),
{
    if formats.len() == 0 {
        Seq::empty()
    } else {
        let before = video_resolutions(formats.drop_last());
        let f = formats.last();
        let has_video = f.vcodec matches Some(c) && c@ != "none"@;
        if has_video && f.resolution is Some {
            before.push(f.resolution->Some_0@)
        } else {
            before
        }
    }
}

/// The video qualities offered for one video: its distinct resolutions in sorted
/// order, then `best`.
pub fn resolution_options(info: &YtdlInfo) -> (out: Vec<String>)
    ensures
        out@.len() >= 1,
        out@.last()@ == "best"@,
        strictly_sorted(views(out@).drop_last()),
        forall|x: Seq<char>| views(out@).drop_last().contains(x) <==> video_resolutions(info.formats@).contains(x),
{
    let mut out: Vec<String> = Vec::new();
    let mut i: usize = 0;
    assert(views(out@) =~= Seq::<Seq<char>>::empty());
    assert(info.formats@.take(0) =~= Seq::<YtdlFormat>::empty());
    while i < info.formats.len()
        invariant
            i <= info.formats@.len(),
            strictly_sorted(views(out@)),
            forall|x: Seq<char>| views(out@).contains(x) <==> video_resolutions(info.formats@.take(i as int)).contains(x),
        decreases info.formats.len() - i,
    {
        let f = &info.formats[i];
        let has_video = match &f.vcodec {
            Some(c) => !str_eq(c.as_str(), "none"),
            None => false,
        };
        let ghost before = video_resolutions(info.formats@.take(i as int));
        assert(info.formats@.take(i + 1).drop_last() =~= info.formats@.take(i as int));
        assert(info.formats@.take(i + 1).last() == info.formats@[i as int]);
        let ghost old_out = views(out@);
        if has_video {
            match &f.resolution {
                Some(r) => {
                    insert_sorted(&mut out, r.clone());
                    assert(video_resolutions(info.formats@.take(i + 1)) == before.push(r@));
                    let ghost np = before.push(r@);
                    assert forall|x: Seq<char>| views(out@).contains(x) <==> np.contains(x) by {
                        assert(views(out@).contains(x) <==> (old_out.contains(x) || x == r@));
                        assert(old_out.contains(x) <==> before.contains(x));
                        if np.contains(x) {
                            let k = choose|k: int| 0 <= k < np.len() && np[k] == x;
                            if k < before.len() {
                                assert(before[k] == x);
                                assert(before.contains(x));
                            }
                        }
                        if before.contains(x) {
                            let k = choose|k: int| 0 <= k < before.len() && before[k] == x;
                            assert(np[k] == x);
                        }
                        if x == r@ {
                            assert(np[before.len() as int] == x);
                        }
                    }
                },
                None => {},
            }
        }
        i += 1;
    }
    assert(info.formats@.take(i as int) =~= info.formats@);
    let ghost sorted = views(out@);
    out.push(String::from_str("best"));
    assert(views(out@).drop_last() =~= sorted);
    out
}

/// The options the extras menu adds to every download, and whether subtitles are to be
/// looked for.
pub open spec fn extras_effect(picks: Seq<usize>, k: int) -> (Seq<Seq<char>>, bool)
    decreases k,
{
    if k <= 0 {
        (Seq::empty(), false)
    } else {
        let (args, subs) = extras_effect(picks, k - 1);
        let p = picks[k - 1];
        if p == 0 {
            (args.push("--embed-metadata"@), subs)
        } else if p == 1 {
            (args.push("--embed-thumbnail"@), subs)
        } else {
            (args, true)
        }
    }
}

/// The common yt-dlp options and the subtitle check that the extras picked ask for.
pub fn extras_args(picks: &Vec<usize>) -> (out: (Vec<String>, bool))
    requires
        forall|k: int| 0 <= k < picks@.len() ==> #[trigger] picks@[k] < extra_options().len(),
    ensures
        views(out.0@) == extras_effect(picks@, picks@.len() as int).0,
        out.1 == extras_effect(picks@, picks@.len() as int).1,
{
    let mut args: Vec<String> = Vec::new();
    let mut subs = false;
    let mut k: usize = 0;
    assert(views(args@) =~= Seq::<Seq<char>>::empty());
    while k < picks.len()
        invariant
            k <= picks.len(),
            views(args@) == extras_effect(picks@, k as int).0,
            subs == extras_effect(picks@, k as int).1,
        decreases picks.len() - k,
    {
        let ghost before = views(args@);
        if picks[k] == 0 {
            args.push(String::from_str("--embed-metadata"));
            assert(views(args@) =~= before.push("--embed-metadata"@));
        } else if picks[k] == 1 {
            args.push(String::from_str("--embed-thumbnail"));
            assert(views(args@) =~= before.push("--embed-thumbnail"@));
        } else {
            subs = true;
        }
        k += 1;
    }
    (args, subs)
}

/// Subtitles can be embedded: an m4a audio file or any video file is made.
pub fn subtitles_embeddable(audio_formats: &Vec<String>, video_formats: &Vec<String>) -> (b: bool)
    ensures
        b == (views(audio_formats@).contains("m4a"@) || video_formats@.len() > 0),
{
    let mut i: usize = 0;
    while i < audio_formats.len()
        invariant
            i <= audio_formats.len(),
            forall|j: int| 0 <= j < i ==> audio_formats@[j]@ != "m4a"@,
        decreases audio_formats.len() - i,
    {
        if str_eq(audio_formats[i].as_str(), "m4a") {
            assert(views(audio_formats@)[i as int] == "m4a"@);
            return true;
        }
        i += 1;
    }
    assert forall|j: int| 0 <= j < views(audio_formats@).len() implies views(audio_formats@)[j] != "m4a"@ by {
        assert(views(audio_formats@)[j] == audio_formats@[j]@);
    }
    video_formats.len() > 0
}

/// Reading yt-dlp's subtitle listing line by line: after a header line naming
/// `Language` and `Formats`, each non-blank line with two words or more gives
/// `first - second`. Gives whether a header was seen and the entries found.
pub open spec fn subtitle_scan(ls: Seq<Seq<char>>) -> (bool, Seq<Seq<char>>)
    decreases ls.len(),
{
    if ls.len() == 0 {
        (false, Seq::empty())
    } else {
        let (in_subs, found) = subtitle_scan(ls.drop_last());
        let line = ls.last();
        if contains_seq(line, "Language"@) && contains_seq(line, "Formats"@) {
            (true, found)
        } else if in_subs && trim(line).len() > 0 && words(line).len() >= 2 {
            (true, found.push(words(line)[0] + " - "@ + words(line)[1]))
        } else {
            (in_subs, found)
        }
    }
}

/// The subtitle entries in yt-dlp's `--list-subs` output.
pub fn available_subtitles(listing: &str) -> (out: Vec<String>)
    ensures
        views(out@) == subtitle_scan(lines(listing@)).1,
{
    let ls = lines_of(listing);
    let ghost lv = views(ls@);
    let mut found: Vec<String> = Vec::new();
    let mut in_subs = false;
    let mut i: usize = 0;
    assert(lv.take(0) =~= Seq::<Seq<char>>::empty());
    assert(views(found@) =~= Seq::<Seq<char>>::empty());
    while i < ls.len()
        invariant
            lv == views(ls@),
            i <= ls.len(),
            in_subs == subtitle_scan(lv.take(i as int)).0,
            views(found@) == subtitle_scan(lv.take(i as int)).1,
        decreases ls.len() - i,
    {
        let line = ls[i].as_str();
        assert(lv.take(i + 1).drop_last() =~= lv.take(i as int));
        assert(lv.take(i + 1).last() == line@);
        if contains(line, "Language") && contains(line, "Formats") {
            in_subs = true;
        } else if in_subs && !is_blank_str(line) {
            let ws = words_of(line);
            if ws.len() >= 2 {
                let mut entry = ws[0].clone();
                entry.append(" - ");
                entry.append(ws[1].as_str());
                assert(views(ws@)[0] == ws@[0]@);
                assert(views(ws@)[1] == ws@[1]@);
                let ghost before = views(found@);
                let ghost e = entry@;
                found.push(entry);
                assert(views(found@) =~= before.push(e));
            }
        }
        i += 1;
    }
    assert(lv.take(i as int) =~= lv);
    found
}

/// The language code of a subtitle entry: the part before the first ` - `.
pub open spec fn entry_language(entry: Seq<char>) -> Seq<char> {
    split_on(entry, " - "@)[0]
}

/// The yt-dlp options for the subtitles picked: their languages, comma-separated, then
/// embedding when the first method was chosen and the files allow it, else separate
/// files (also the automatic ones).
pub open spec fn subtitle_arg_list(langs: Seq<Seq<char>>, embed: bool) -> Seq<Seq<char>> {
    let head = seq!["--sub-langs"@, join_with(langs, ","@)];
    if embed {
        head + seq!["--embed-subs"@]
    } else {
        head + seq!["--write-subs"@, "--write-auto-subs"@]
    }
}

/// The languages of the picked entries, in the order of the picks.
pub open spec fn picked_languages(available: Seq<String>, picks: Seq<usize>) -> Seq<Seq<char>> {
    picks.map_values(|p: usize| entry_language(available[p as int]@))
}

/// The yt-dlp options for the subtitles picked with the method picked.
pub fn subtitle_args(available: &Vec<String>, picks: &Vec<usize>, method: usize, embeddable: bool) -> (out: Vec<String>)
    requires
        forall|k: int| 0 <= k < picks@.len() ==> #[trigger] picks@[k] < available@.len(),
    ensures
        views(out@) == subtitle_arg_list(picked_languages(available@, picks@), method == 0 && embeddable),
{
    let ghost langs = picked_languages(available@, picks@);
    let mut joined = String::new();
    let mut k: usize = 0;
    assert(langs.take(0) =~= Seq::<Seq<char>>::empty());
    while k < picks.len()
        invariant
            forall|j: int| 0 <= j < picks@.len() ==> #[trigger] picks@[j] < available@.len(),
            langs == picked_languages(available@, picks@),
            k <= picks.len(),
            joined@ == join_with(langs.take(k as int), ","@),
        decreases picks.len() - k,
    {
        proof {
            reveal_strlit(" - ");
            lemma_split_nonempty(available@[picks@[k as int] as int]@, " - "@);
        }
        let parts = split_str(available[picks[k]].as_str(), " - ");
        assert(views(parts@)[0] == parts@[0]@);
        if k > 0 {
            joined.append(",");
        }
        joined.append(parts[0].as_str());
        proof {
            let t = langs.take(k + 1);
            assert(t.drop_last() =~= langs.take(k as int));
            assert(t.last() == entry_language(available@[picks@[k as int] as int]@));
            if k == 0 {
                assert(t.len() == 1);
            }
        }
        k += 1;
    }
    assert(langs.take(k as int) =~= langs);
    let mut out: Vec<String> = Vec::new();
    out.push(String::from_str("--sub-langs"));
    out.push(joined);
    let embed = method == 0 && embeddable;
    if embed {
        out.push(String::from_str("--embed-subs"));
    } else {
        out.push(String::from_str("--write-subs"));
        out.push(String::from_str("--write-auto-subs"));
    }
    assert(views(out@) =~= subtitle_arg_list(langs, embed));
    out
}

/// The downloads for one video: one audio file per audio format, then one video file
/// per container at the chosen quality, all under the video's title.
pub open spec fn planned_configs(audio: Seq<String>, video: Seq<String>, title: Seq<char>, quality: Seq<char>, out: Seq<DownloadConfig>) -> bool {
    &&& out.len() == audio.len() + video.len()
    &&& forall|i: int| 0 <= i < audio.len() ==> {
        let c = #[trigger] out[i];
        c.format@ == audio[i]@ && c.title@ == title && c.is_audio && c.quality is None
    }
    &&& forall|i: int| 0 <= i < video.len() ==> {
        let c = #[trigger] out[audio.len() + i];
        c.format@ == video[i]@ && c.title@ == title && !c.is_audio && (c.quality matches Some(q) && q@ == quality)
    }
}

/// The downloads for one video.
pub fn download_configs(audio_formats: &Vec<String>, video_formats: &Vec<String>, title: &str, quality: &str) -> (out: Vec<DownloadConfig>)
    requires
        audio_formats@.len() + video_formats@.len() <= usize::MAX,
    ensures
        planned_configs(audio_formats@, video_formats@, title@, quality@, out@),
{
    let mut out: Vec<DownloadConfig> = Vec::new();
    let mut i: usize = 0;
    while i < audio_formats.len()
        invariant
            i <= audio_formats.len(),
            out@.len() == i,
            forall|j: int| 0 <= j < i ==> {
                let c = #[trigger] out@[j];
                c.format@ == audio_formats@[j]@ && c.title@ == title@ && c.is_audio && c.quality is None
            },
        decreases audio_formats.len() - i,
    {
        out.push(DownloadConfig {
            format: audio_formats[i].clone(),
            title: String::from_str(title),
            is_audio: true,
            quality: None,
        });
        i += 1;
    }
    let mut k: usize = 0;
    while k < video_formats.len()
        invariant
            audio_formats@.len() + video_formats@.len() <= usize::MAX,
            k <= video_formats.len(),
            out@.len() == audio_formats@.len() + k,
            forall|j: int| 0 <= j < audio_formats@.len() ==> {
                let c = #[trigger] out@[j];
                c.format@ == audio_formats@[j]@ && c.title@ == title@ && c.is_audio && c.quality is None
            },
            forall|j: int| 0 <= j < k ==> {
                let c = #[trigger] out@[audio_formats@.len() + j];
                c.format@ == video_formats@[j]@ && c.title@ == title@ && !c.is_audio && (c.quality matches Some(q) && q@ == quality@)
            },
        decreases video_formats.len() - k,
    {
        out.push(DownloadConfig {
            format: video_formats[k].clone(),
            title: String::from_str(title),
            is_audio: false,
            quality: Some(String::from_str(quality)),
        });
        assert(out@[audio_formats@.len() + k as int].format@ == video_formats@[k as int]@);
        k += 1;
    }
    out
}

} // verus!
