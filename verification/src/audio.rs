//! How a fetched asset is stored.

use vstd::prelude::*;
use vstd::string::StringExecFns;
use crate::error::AppError;
use crate::text::str_eq;

verus! {

/// The ways in which an asset is stored.
#[derive(Clone, Copy, Debug, PartialEq, Eq)]
pub enum AudioHandler {
    /// A list of segments: the remux tool fetches and joins them.
    M3u8,
    /// Written as it is; the cover goes into a tag.
    Mp3,
    /// Remuxed, with the cover.
    M4a,
    /// Written as it is.
    Ogg,
}

/// The handler for an asset. `file_ext` is the extension that the asset's
/// address hints at, `audio_ext` the one that goes with its container. A
/// list of segments is told by the address; everything else by the
/// container, and only `mp3`, `m4a` and `ogg` have a handler.
pub open spec fn handler_of(file_ext: Seq<char>, audio_ext: Seq<char>) -> Option<AudioHandler> {
    if file_ext == "m3u8"@ {
        Some(AudioHandler::M3u8)
    } else if audio_ext == "mp3"@ {
        Some(AudioHandler::Mp3)
    } else if audio_ext == "m4a"@ {
        Some(AudioHandler::M4a)
    } else if audio_ext == "ogg"@ {
        Some(AudioHandler::Ogg)
    } else {
        None
    }
}

/// The text of the error for a container without a handler.
pub open spec fn unsupported_text(audio_ext: Seq<char>) -> Seq<char> {
    "Unsupported audio format: "@ + audio_ext
}

/// The handler for an asset, or an `Audio` error where there is none.
pub fn handler_for(file_ext: &str, audio_ext: &str) -> (r: Result<AudioHandler, AppError>)
    ensures
        match handler_of(file_ext@, audio_ext@) {
            Some(handler) => r == Ok::<AudioHandler, AppError>(handler),
            None => r matches Err(AppError::Audio(m)) && m@ == unsupported_text(audio_ext@),
        },
{
    if str_eq(file_ext, "m3u8") {
        Ok(AudioHandler::M3u8)
    } else if str_eq(audio_ext, "mp3") {
        Ok(AudioHandler::Mp3)
    } else if str_eq(audio_ext, "m4a") {
        Ok(AudioHandler::M4a)
    } else if str_eq(audio_ext, "ogg") {
        Ok(AudioHandler::Ogg)
    } else {
        let mut text = "Unsupported audio format: ".to_owned();
        text.append(audio_ext);
        Err(AppError::Audio(text))
    }
}

/// The media type of a cover, by the extension of its file: `image/png` for
/// `png`, and `image/jpeg` for every other one.
pub open spec fn picture_mime_of(ext: Seq<char>) -> Seq<char> {
    if ext == "png"@ {
        "image/png"@
    } else {
        "image/jpeg"@
    }
}

/// The media type under which a cover goes into a tag.
pub fn picture_mime_type(ext: &str) -> (mime: &'static str)
    ensures
        mime@ == picture_mime_of(ext@),
{
    if str_eq(ext, "png") {
        "image/png"
    } else {
        "image/jpeg"
    }
}

} // verus!
