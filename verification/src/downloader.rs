//! What the jobs of one run share, and how their files are named.

use vstd::prelude::*;
use vstd::string::StringExecFns;
use crate::soundcloud::model::{Format, Playlist, Track};
use crate::soundcloud::request::SoundcloudClient;
use crate::text::{chars_of, find_char, lemma_until, str_eq, string_of, until};
use crate::util::{is_blank, is_empty, sanitize_for, sanitized};

verus! {

/// What the jobs of one run share: the client that words the requests, and
/// whether device names are reserved where the files are written.
#[derive(Clone, Debug)]
pub struct Downloader {
    pub client: SoundcloudClient,
    pub reserved_names: bool,
}

/// The file extension that goes with a container: `mp3` for `audio/mpeg`,
/// `ogg` for `audio/ogg`, and `m4a` for every other one. Of the hint only
/// what stands before the first `;` counts.
pub open spec fn ext_of_mime(mime: Seq<char>) -> Seq<char> {
    let kind = until(mime, ';');
    if kind == "audio/mpeg"@ {
        "mp3"@
    } else if kind == "audio/ogg"@ {
        "ogg"@
    } else {
        "m4a"@
    }
}

/// The file extension that goes with the container of an encoding.
pub fn mime_type_to_ext(format: &Format) -> (ext: String)
    ensures
        ext@ == ext_of_mime(format.mime_type@),
{
    let chars = chars_of(format.mime_type.as_str());
    let cut = find_char(&chars, ';', 0, chars.len());
    proof {
        lemma_until(chars@, ';', cut as int);
    }
    let kind = string_of(&chars, 0, cut);
    if str_eq(kind.as_str(), "audio/mpeg") {
        "mp3".to_owned()
    } else if str_eq(kind.as_str(), "audio/ogg") {
        "ogg".to_owned()
    } else {
        "m4a".to_owned()
    }
}

/// `name`, or `fallback` where the name is blank.
pub open spec fn or_fallback(blank: bool, name: Seq<char>, fallback: Seq<char>) -> Seq<char> {
    if blank {
        fallback
    } else {
        name
    }
}

/// The name of the file of a track: artist, title and extension as
/// `{artist} - {title}.{ext}`, made safe as a whole.
///
/// The artist is the owner's display name, or the owner's permalink where
/// the safe form of the display name is blank. The title is the track's
/// title, or the track's permalink where the title is blank.
pub open spec fn file_name(track: Track, ext: Seq<char>, reserved: bool) -> Seq<char> {
    let artist = or_fallback(
        is_blank(sanitized(track.user.username@, reserved)),
        track.user.username@,
        track.user.permalink@,
    );
    let title = or_fallback(is_blank(track.title@), track.title@, track.permalink@);
    sanitized(artist + " - "@ + title + "."@ + ext, reserved)
}

/// The name of the file of a track. `reserved` says whether device names
/// are reserved where the file is written.
pub fn prepare_file_name(track: &Track, ext: &str, reserved: bool) -> (name: String)
    ensures
        name@ == file_name(*track, ext@, reserved),
{
    let username = sanitize_for(track.user.username.as_str(), reserved);
    let artist = if is_empty(username.as_str()) {
        track.user.permalink.as_str()
    } else {
        track.user.username.as_str()
    };
    let title = if is_empty(track.title.as_str()) {
        track.permalink.as_str()
    } else {
        track.title.as_str()
    };
    let mut full = artist.to_owned();
    full.append(" - ");
    full.append(title);
    full.append(".");
    full.append(ext);
    sanitize_for(full.as_str(), reserved)
}

/// The name of the directory that a playlist goes to where the caller names
/// none: the safe form of its title, or of its permalink where it has no
/// title.
pub open spec fn playlist_dir(playlist: Playlist, reserved: bool) -> Seq<char> {
    sanitized(
        or_fallback(playlist.title@.len() == 0, playlist.title@, playlist.permalink@),
        reserved,
    )
}

/// The name of the directory that a playlist goes to where the caller names
/// none.
pub fn default_playlist_dir(playlist: &Playlist, reserved: bool) -> (name: String)
    ensures
        name@ == playlist_dir(*playlist, reserved),
{
    if playlist.title.as_str().is_empty() {
        sanitize_for(playlist.permalink.as_str(), reserved)
    } else {
        sanitize_for(playlist.title.as_str(), reserved)
    }
}

} // verus!
