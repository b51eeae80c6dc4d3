//! The command line: which help is asked for and which mode the program runs in.
use vstd::prelude::*;
use crate::text::{str_eq, views};

verus! {

/// The help topics.
#[derive(Debug, PartialEq, Eq, Structural, Clone, Copy)]
pub enum HelpTopicCmd {
    /// Search across providers
    Discovery,
    /// Download audio or video
    Download,
    /// TUI and interface options
    Interface,
    /// Playback keyboard controls
    Controls,
}

/// What the raw arguments ask of the help.
#[derive(Debug)]
pub enum HelpRequest {
    /// Not a help request.
    NotHelp,
    /// `help` alone: the general help.
    General,
    /// `help` and more: the topic is read from these words.
    Topic(Vec<String>),
}

/// Reads a help request from the raw arguments (the program's name first).
pub fn help_request(raw: &Vec<String>) -> (out: HelpRequest)
    ensures
        !(raw@.len() >= 2 && raw@[1]@ == "help"@) ==> out is NotHelp,
        raw@.len() == 2 && raw@[1]@ == "help"@ ==> out is General,
        raw@.len() > 2 && raw@[1]@ == "help"@ ==> (out matches HelpRequest::Topic(w) && views(w@) == views(raw@).skip(2)),
{
    if raw.len() < 2 || !str_eq(raw[1].as_str(), "help") {
        return HelpRequest::NotHelp;
    }
    if raw.len() == 2 {
        return HelpRequest::General;
    }
    let mut w: Vec<String> = Vec::new();
    let mut i: usize = 2;
    while i < raw.len()
        invariant
            2 <= i <= raw@.len(),
            views(w@) == views(raw@).subrange(2, i as int),
        decreases raw@.len() - i,
    {
        let ghost before = views(w@);
        w.push(raw[i].clone());
        assert(views(w@) =~= before.push(raw@[i as int]@));
        assert(views(raw@).subrange(2, i + 1) =~= views(raw@).subrange(2, i as int).push(raw@[i as int]@));
        i += 1;
    }
    assert(views(raw@).subrange(2, i as int) =~= views(raw@).skip(2));
    HelpRequest::Topic(w)
}

/// The mode the program runs in.
#[derive(Debug)]
pub enum RunMode {
    /// The terminal interface.
    Tui,
    /// A download in this mode.
    Download(String),
    /// A search for this query.
    Search(String),
    /// Play the inputs directly.
    Play,
}

/// The mode the options ask for: the terminal interface first, then a download, then a
/// search, else direct play.
pub fn run_mode(tui: bool, download: Option<String>, search: Option<String>) -> (m: RunMode)
    ensures
        tui ==> m is Tui,
        !tui && download is Some ==> m == RunMode::Download(download->Some_0),
        !tui && download is None && search is Some ==> m == RunMode::Search(search->Some_0),
        !tui && download is None && search is None ==> m is Play,
{
    if tui {
        return RunMode::Tui;
    }
    match download {
        Some(d) => RunMode::Download(d),
        None => match search {
            Some(q) => RunMode::Search(q),
            None => RunMode::Play,
        },
    }
}

} // verus!
