//! The remote catalog: its entities, what is asked of it, and what comes
//! back.

pub mod gateway;
pub mod hydration;
pub mod json;
pub mod likes;
pub mod model;
pub mod request;
pub mod selector;

use vstd::prelude::*;
use crate::text::{after_last, chars_of, find_char, lemma_until, start_after_last, string_of, until};

pub use request::SoundcloudClient;

verus! {

/// The bytes of an asset and the extension that its address hints at.
#[derive(Clone, Debug, PartialEq, Eq)]
pub struct DownloadedFile {
    pub data: Vec<u8>,
    pub file_ext: String,
}

/// The extension that an address hints at. It is read off the address, not
/// off what the answer says of its content: of what stands behind the last
/// `/`, what stands behind the last `.`, up to the first `?`.
pub open spec fn extension_of(url: Seq<char>) -> Seq<char> {
    until(after_last(after_last(url, '/'), '.'), '?')
}

/// The extension that an address hints at.
pub fn file_extension(url: &str) -> (ext: String)
    ensures
        ext@ == extension_of(url@),
{
    let chars = chars_of(url);
    let segment = start_after_last(&chars, '/', 0);
    proof {
        assert(chars@.skip(0) == chars@);
    }
    let suffix = start_after_last(&chars, '.', segment);
    let stop = find_char(&chars, '?', suffix, chars.len());
    proof {
        let tail = chars@.skip(suffix as int);
        assert forall|j: int| 0 <= j < stop - suffix implies tail[j] != '?' by {
            assert(tail[j] == chars@[suffix + j]);
        }
        lemma_until(tail, '?', stop - suffix);
    }
    string_of(&chars, suffix, stop)
}

impl DownloadedFile {
    /// The file holds `data`, and `ext` as its extension.
    pub open spec fn holds(self, data: Vec<u8>, ext: Seq<char>) -> bool {
        self.data == data && self.file_ext@ == ext
    }

    /// The bytes that came from `url`, with the extension that the address
    /// hints at.
    pub fn new(data: Vec<u8>, url: &str) -> (file: DownloadedFile)
        ensures
            file.holds(data, extension_of(url@)),
    {
        DownloadedFile { data, file_ext: file_extension(url) }
    }
}

} // verus!
