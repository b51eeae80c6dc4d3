//! Where the player keeps its configuration and where it looks for music.
use vstd::prelude::*;
use crate::firecore::error::Error;
use crate::firecore::paths::{finding_ok, look_at, DiskFinding};
use crate::text::{has_dotdot, has_dotdot_component, join_path, path_join};

verus! {

/// `dirs::home_dir`: the user's home directory as the platform reports it, as text.
#[verifier::external_body]
pub(crate) fn home_dir() -> (h: Option<String>) {
    dirs::home_dir().map(|p| p.to_string_lossy().into_owned())
}

/// The home directory the player falls back on: the reported one, else `.`.
pub open spec fn home_or_dot(home: Option<Seq<char>>) -> Seq<char> {
    match home {
        Some(h) => h,
        None => "."@,
    }
}

/// The configuration directory under a given home: `<home>/.config/firemusic`.
pub open spec fn config_dir_of(home: Option<Seq<char>>) -> Seq<char> {
    path_join(path_join(home_or_dot(home), ".config"@), "firemusic"@)
}

/// The default music directory under a given home: `<home>/Music`.
pub open spec fn music_dir_of(home: Option<Seq<char>>) -> Seq<char> {
    path_join(home_or_dot(home), "Music"@)
}

/// The view of an optional string.
pub open spec fn opt_view(o: Option<String>) -> Option<Seq<char>> {
    match o {
        Some(s) => Some(s@),
        None => None,
    }
}

/// The configuration directory under the given home.
pub fn config_dir_from(home: Option<String>) -> (out: String)
    ensures
        out@ == config_dir_of(opt_view(home)),
{
    let base = match home {
        Some(h) => h,
        None => String::from_str("."),
    };
    let c = join_path(base.as_str(), ".config");
    join_path(c.as_str(), "firemusic")
}

/// The default music directory under the given home.
pub fn music_dir_from(home: Option<String>) -> (out: String)
    ensures
        out@ == music_dir_of(opt_view(home)),
{
    let base = match home {
        Some(h) => h,
        None => String::from_str("."),
    };
    join_path(base.as_str(), "Music")
}

/// The player's configuration directory, `~/.config/firemusic`.
pub fn config_dir() -> (out: String)
    ensures
        exists|h: Option<Seq<char>>| out@ == config_dir_of(h),
{
    let h = home_dir();
    config_dir_from(h)
}

/// Where equalizer presets are kept under the given home: `presets` in its
/// configuration directory.
pub fn presets_dir_from(home: Option<String>) -> (out: String)
    ensures
        out@ == path_join(config_dir_of(opt_view(home)), "presets"@),
{
    let c = config_dir_from(home);
    join_path(c.as_str(), "presets")
}

/// Where playlists are kept under the given home: `playlists` in its configuration
/// directory.
pub fn playlists_dir_from(home: Option<String>) -> (out: String)
    ensures
        out@ == path_join(config_dir_of(opt_view(home)), "playlists"@),
{
    let c = config_dir_from(home);
    join_path(c.as_str(), "playlists")
}

/// Where equalizer presets are kept: `presets` under the configuration directory.
pub fn presets_dir() -> (out: String)
    ensures
        exists|h: Option<Seq<char>>| out@ == path_join(config_dir_of(h), "presets"@),
{
    presets_dir_from(home_dir())
}

/// Where playlists are kept: `playlists` under the configuration directory.
pub fn playlists_dir() -> (out: String)
    ensures
        exists|h: Option<Seq<char>>| out@ == path_join(config_dir_of(h), "playlists"@),
{
    playlists_dir_from(home_dir())
}

/// The default music directory, `~/Music`.
pub fn default_music_dir() -> (out: String)
    ensures
        exists|h: Option<Seq<char>>| out@ == music_dir_of(h),
{
    music_dir_from(home_dir())
}

/// The error is `ConfigPath` with exactly this message.
pub open spec fn config_error(r: Result<String, Error>, msg: Seq<char>) -> bool {
    r matches Err(Error::ConfigPath(m)) && m@ == msg
}

/// What resolving a music directory makes of the disk's answer: a canonical folder is
/// the result; a canonical path that is no folder is refused with that path; an I/O
/// error is passed on; a missing directory is refused, with a message that says whether
/// it was given as a relative path.
pub open spec fn music_verdict(dir: Seq<char>, f: DiskFinding, res: Result<String, Error>) -> bool {
    match f {
        DiskFinding::Missing => if dir.len() == 0 || dir[0] != '/' {
            config_error(res, "music directory must be an existing absolute path: "@ + dir)
        } else {
            config_error(res, "music directory does not exist: "@ + dir)
        },
        DiskFinding::Unresolved(e) => res matches Err(Error::Io(m)) && m@ == e@,
        DiskFinding::Resolved(c, is_dir) => if is_dir {
            res matches Ok(s) && s@ == c@
        } else {
            config_error(res, "music directory is not a folder: "@ + c@)
        },
    }
}

/// Decides the music directory `dir` from what the disk showed of it.
pub fn music_dir_verdict(dir: &str, f: DiskFinding) -> (res: Result<String, Error>)
    ensures
        music_verdict(dir@, f, res),
{
    match f {
        DiskFinding::Missing => {
            if dir.unicode_len() == 0 || dir.get_char(0) != '/' {
                let mut m = String::from_str("music directory must be an existing absolute path: ");
                m.append(dir);
                Err(Error::ConfigPath(m))
            } else {
                let mut m = String::from_str("music directory does not exist: ");
                m.append(dir);
                Err(Error::ConfigPath(m))
            }
        },
        DiskFinding::Unresolved(e) => Err(Error::Io(e)),
        DiskFinding::Resolved(c, is_dir) => {
            if is_dir {
                Ok(c)
            } else {
                let mut m = String::from_str("music directory is not a folder: ");
                m.append(c.as_str());
                Err(Error::ConfigPath(m))
            }
        },
    }
}

/// Resolves the music directory the user asked for: empty means the default; a path
/// with a `..` component is refused; otherwise the disk decides, as `music_verdict`
/// says.
pub fn resolve_music_dir(dir: &str) -> (res: Result<String, Error>)
    ensures
        dir@.len() == 0 ==> (res matches Ok(s) && exists|h: Option<Seq<char>>| s@ == music_dir_of(h)),
        dir@.len() > 0 && has_dotdot_component(dir@) ==> config_error(
            res,
            "music directory must not contain '..' components"@,
        ),
        dir@.len() > 0 && !has_dotdot_component(dir@) ==> exists|f: DiskFinding| finding_ok(f) && music_verdict(dir@, f, res),
{
    if dir.unicode_len() == 0 {
        return Ok(default_music_dir());
    }
    if has_dotdot(dir) {
        return Err(
            Error::ConfigPath(String::from_str("music directory must not contain '..' components")),
        );
    }
    let f = look_at(dir, true);
    let ghost g = f;
    let r = music_dir_verdict(dir, f);
    assert(music_verdict(dir@, g, r));
    r
}

} // verus!
