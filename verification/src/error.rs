//! The errors of the library, told apart by kind.

use vstd::prelude::*;
use vstd::string::StringExecFns;

verus! {

/// What can go wrong. The variant is the kind; the text, where there is one,
/// says what happened.
#[derive(Clone, Debug, PartialEq, Eq)]
pub enum AppError {
    /// The transport failed; such a failure is never retried.
    Network(String),
    /// The local filesystem failed.
    Io(String),
    /// The remux tool could not be run or ended with an error.
    FFmpeg(String),
    /// The audio cannot be processed.
    Audio(String),
    /// The upstream kept limiting the rate until the retries ran out.
    RateLimited,
    /// The configuration is missing or unusable.
    Configuration(String),
    /// A document is malformed or lacks what was looked for.
    Parse(String),
    /// A tag could not be written.
    Id3(String),
    /// The catalog holds nothing that fits.
    NotFound(String),
}

impl AppError {
    /// The message as it is shown to the user.
    pub open spec fn text(self) -> Seq<char> {
        match self {
            AppError::Network(m) => "Network error: "@ + m@,
            AppError::Io(m) => "IO error: "@ + m@,
            AppError::FFmpeg(m) => "FFmpeg error: "@ + m@,
            AppError::Audio(m) => "Audio processing error: "@ + m@,
            AppError::RateLimited => "Rate limited by SoundCloud API"@,
            AppError::Configuration(m) => "Configuration error: "@ + m@,
            AppError::Parse(m) => "Parse error: "@ + m@,
            AppError::Id3(m) => "ID3 tag error: "@ + m@,
            AppError::NotFound(m) => "Not found: "@ + m@,
        }
    }

    /// A second value that holds the same.
    pub fn duplicate(&self) -> (r: AppError)
        ensures
            r == *self,
    {
        match self {
            AppError::Network(m) => AppError::Network(m.clone()),
            AppError::Io(m) => AppError::Io(m.clone()),
            AppError::FFmpeg(m) => AppError::FFmpeg(m.clone()),
            AppError::Audio(m) => AppError::Audio(m.clone()),
            AppError::RateLimited => AppError::RateLimited,
            AppError::Configuration(m) => AppError::Configuration(m.clone()),
            AppError::Parse(m) => AppError::Parse(m.clone()),
            AppError::Id3(m) => AppError::Id3(m.clone()),
            AppError::NotFound(m) => AppError::NotFound(m.clone()),
        }
    }

    /// The message as it is shown to the user.
    pub fn message(&self) -> (s: String)
        ensures
            s@ == self.text(),
    {
        match self {
            AppError::Network(m) => prefixed("Network error: ", m),
            AppError::Io(m) => prefixed("IO error: ", m),
            AppError::FFmpeg(m) => prefixed("FFmpeg error: ", m),
            AppError::Audio(m) => prefixed("Audio processing error: ", m),
            AppError::RateLimited => "Rate limited by SoundCloud API".to_owned(),
            AppError::Configuration(m) => prefixed("Configuration error: ", m),
            AppError::Parse(m) => prefixed("Parse error: ", m),
            AppError::Id3(m) => prefixed("ID3 tag error: ", m),
            AppError::NotFound(m) => prefixed("Not found: ", m),
        }
    }
}

/// `head` followed by `tail`.
fn prefixed(head: &str, tail: &String) -> (s: String)
    ensures
        s@ == head@ + tail@,
{
    let mut s = head.to_owned();
    s.append(tail.as_str());
    s
}

} // verus!
