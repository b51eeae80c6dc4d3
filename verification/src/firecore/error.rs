use vstd::prelude::*;

verus! {

/// The errors of the player's core, each with its message.
#[derive(Debug)]
pub enum Error {
    InvalidInput(String),
    MpvInit(String),
    MpvCommand(String),
    YtdlFailed(String),
    ConfigPath(String),
    Io(String),
}

impl Error {
    /// The text that the player shows for this error.
    pub fn message(&self) -> (out: String)
        ensures
            out@ == self.spec_message(),
    {
        let (label, detail) = match self {
            Error::InvalidInput(m) => ("invalid input: ", m),
            Error::MpvInit(m) => ("mpv init error: ", m),
            Error::MpvCommand(m) => ("mpv command failed: ", m),
            Error::YtdlFailed(m) => ("yt-dlp failed: ", m),
            Error::ConfigPath(m) => ("config path error: ", m),
            Error::Io(m) => ("io error: ", m),
        };
        let mut out = String::from_str(label);
        out.append(detail.as_str());
        out
    }

    /// The text that the player shows for this error.
    pub open spec fn spec_message(&self) -> Seq<char> {
        match self {
            Error::InvalidInput(m) => "invalid input: "@ + m@,
            Error::MpvInit(m) => "mpv init error: "@ + m@,
            Error::MpvCommand(m) => "mpv command failed: "@ + m@,
            Error::YtdlFailed(m) => "yt-dlp failed: "@ + m@,
            Error::ConfigPath(m) => "config path error: "@ + m@,
            Error::Io(m) => "io error: "@ + m@,
        }
    }

    /// The detail that this error carries.
    pub open spec fn detail(&self) -> Seq<char> {
        match self {
            Error::InvalidInput(m) => m@,
            Error::MpvInit(m) => m@,
            Error::MpvCommand(m) => m@,
            Error::YtdlFailed(m) => m@,
            Error::ConfigPath(m) => m@,
            Error::Io(m) => m@,
        }
    }
}

} // verus!
