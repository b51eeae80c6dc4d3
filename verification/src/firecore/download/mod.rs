//! Fetching audio and video with yt-dlp: what is asked for, and the commands that ask.
use vstd::prelude::*;
use crate::firecore::error::Error;
use crate::firecore::paths::{fails_with, scheme_allowed, validate_url};
use crate::text::{str_eq, trim, trim_string, views};

pub mod session;
pub mod ytdl;

verus! {

/// The two one-step downloads.
#[derive(Debug, PartialEq, Eq, Structural)]
pub enum DownloadPreset {
    Audio,
    Video,
}

/// What a download request amounts to once its URLs are checked.
#[derive(Debug)]
pub enum DownloadPlan {
    /// Fetch each URL with the preset: audio (mp3) when `audio`, else video (mp4).
    Preset { audio: bool, urls: Vec<String> },
    /// Ask the user, with these URLs (perhaps none) to start from.
    Interactive(Vec<String>),
}

/// Why a download request is refused.
#[derive(Debug)]
pub enum PlanError {
    /// A URL failed validation.
    BadUrl(Error),
    /// A preset download was asked for without any URL; the message says which.
    MissingUrl(String),
}

/// A URL passes `validate_url`.
pub open spec fn url_ok(url: Seq<char>) -> bool {
    trim(url).len() > 0 && scheme_allowed(url)
}

/// The trimmed URLs.
pub open spec fn trimmed(urls: Seq<String>) -> Seq<Seq<char>> {
    views(urls).map_values(|u: Seq<char>| trim(u))
}

/// Checks every URL, in order, keeping each trimmed; the first that fails stops the
/// request with its error.
pub fn validate_urls(urls: &Vec<String>) -> (res: Result<Vec<String>, Error>)
    ensures
        (forall|i: int| 0 <= i < urls@.len() ==> url_ok(#[trigger] urls@[i]@)) <==> res is Ok,
        res matches Ok(v) ==> views(v@) == trimmed(urls@),
        res matches Err(e) ==> exists|i: int| 0 <= i < urls@.len() && !url_ok(#[trigger] urls@[i]@)
            && (forall|j: int| 0 <= j < i ==> url_ok(#[trigger] urls@[j]@))
            && (trim(urls@[i]@).len() == 0 ==> fails_with(Err::<(), Error>(e), "empty URL"@))
            && (trim(urls@[i]@).len() > 0 ==> fails_with(Err::<(), Error>(e),
                "unsupported URL scheme (only http/https allowed): "@ + urls@[i]@)),
{
    let mut out: Vec<String> = Vec::new();
    let mut i: usize = 0;
    while i < urls.len()
        invariant
            i <= urls@.len(),
            forall|j: int| 0 <= j < i ==> url_ok(#[trigger] urls@[j]@),
            views(out@) == trimmed(urls@).take(i as int),
        decreases urls@.len() - i,
    {
        match validate_url(urls[i].as_str()) {
            Ok(()) => {
                let t = trim_string(urls[i].as_str());
                let ghost before = views(out@);
                out.push(t);
                assert(views(out@) =~= before.push(trim(urls@[i as int]@)));
                assert(trimmed(urls@).take(i + 1) =~= trimmed(urls@).take(i as int).push(
                    trim(urls@[i as int]@),
                ));
            },
            Err(e) => {
                assert(!url_ok(urls@[i as int]@));
                return Err(e);
            },
        }
        i += 1;
    }
    assert(trimmed(urls@).take(i as int) =~= trimmed(urls@));
    Ok(out)
}

/// What a download request with `mode` and these URLs amounts to: the URLs are checked
/// first; `audio` and `video` then need at least one; any other mode is interactive.
pub fn handle_download(mode: &str, urls: Vec<String>) -> (res: Result<DownloadPlan, PlanError>)
    ensures
        (exists|i: int| 0 <= i < urls@.len() && !url_ok(#[trigger] urls@[i]@)) ==> res matches Err(PlanError::BadUrl(_)),
        (forall|i: int| 0 <= i < urls@.len() ==> url_ok(#[trigger] urls@[i]@)) ==> {
            if mode@ == "audio"@ || mode@ == "video"@ {
                if urls@.len() == 0 {
                    res matches Err(PlanError::MissingUrl(m)) && m@ == "url required for --download="@ + mode@
                } else {
                    res matches Ok(DownloadPlan::Preset { audio, urls: v }) && audio == (mode@ == "audio"@)
                        && views(v@) == trimmed(urls@)
                }
            } else {
                res matches Ok(DownloadPlan::Interactive(v)) && views(v@) == trimmed(urls@)
            }
        },
{
    let validated = match validate_urls(&urls) {
        Ok(v) => v,
        Err(e) => return Err(PlanError::BadUrl(e)),
    };
    assert(views(validated@).len() == validated@.len());
    assert(trimmed(urls@).len() == urls@.len());
    let audio = str_eq(mode, "audio");
    if audio || str_eq(mode, "video") {
        if validated.len() == 0 {
            let mut m = String::from_str("url required for --download=");
            m.append(mode);
            assert(urls@.len() == 0);
            return Err(PlanError::MissingUrl(m));
        }
        Ok(DownloadPlan::Preset { audio, urls: validated })
    } else {
        Ok(DownloadPlan::Interactive(validated))
    }
}

} // verus!
