//! Entities out of a page of the site.
//!
//! A page carries a JSON array between the text `window.__sc_hydration = `
//! and the text `;</script>`. Each element of the array says under
//! `hydratable` what it is, and holds the entity under `data`.

use vstd::prelude::*;
use vstd::string::StringExecFns;
use crate::error::AppError;
use crate::soundcloud::json::{
    error_text,
    json_elements,
    json_error_text,
    json_member,
    json_parse,
    json_text,
    member,
    parse,
};
use crate::soundcloud::request::Hydratable;
use crate::text::{
    after,
    before,
    chars_of,
    contains,
    find_between,
    is_first_occurrence,
    lemma_first_occurrence_is,
    str_eq,
    string_of,
};

verus! {

/// The text that stands before the array.
pub const HYDRATION_MARKER: &'static str = "window.__sc_hydration = ";

/// The text that stands behind the array.
pub const HYDRATION_END: &'static str = ";</script>";

/// The text of the array in a page: what stands behind the first marker, up
/// to the next marker if there is one, and of that what stands before the
/// first end text, or all of it where there is none. `None` for a page
/// without a marker.
pub open spec fn hydration_text(page: Seq<char>) -> Option<Seq<char>> {
    match after(page, HYDRATION_MARKER@) {
        None => None,
        Some(rest) => Some(before(before(rest, HYDRATION_MARKER@), HYDRATION_END@)),
    }
}

/// The word under which an element says that it is of this kind.
pub open spec fn tag_of(kind: Hydratable) -> Seq<char> {
    match kind {
        Hydratable::Sound => "sound"@,
        Hydratable::Playlist => "playlist"@,
        Hydratable::User => "user"@,
    }
}

/// The text of the error for a page that holds no entity of this kind.
pub open spec fn missing_text(kind: Hydratable) -> Seq<char> {
    match kind {
        Hydratable::Sound => "Could not find track data"@,
        Hydratable::Playlist => "Could not find playlist data"@,
        Hydratable::User => "Could not find user data"@,
    }
}

/// The text of the error for a page without the array.
pub open spec fn no_hydration_text() -> Seq<char> {
    "Could not find hydration data"@
}

/// What an element says under `hydratable`: the word, where it is an object
/// that holds a string there.
pub open spec fn word_of(item: serde_json::Value) -> Option<Seq<char>> {
    match json_member(item, "hydratable"@) {
        Some(word) => json_text(word),
        None => None,
    }
}

/// The element says under `hydratable` that it is of the kind `tag`.
pub open spec fn is_tagged(item: serde_json::Value, tag: Seq<char>) -> bool {
    word_of(item) == Some(tag)
}

/// A word, as plain text.
pub open spec fn word_text(word: Option<String>) -> Option<Seq<char>> {
    match word {
        Some(w) => Some(w@),
        None => None,
    }
}

/// `i` is the first of the words that is `tag`.
pub open spec fn is_first_word(words: Seq<Option<String>>, tag: Seq<char>, i: int) -> bool {
    &&& 0 <= i < words.len()
    &&& word_text(words[i]) == Some(tag)
    &&& forall|j: int| 0 <= j < i ==> word_text(#[trigger] words[j]) != Some(tag)
}

/// None of the words is `tag`.
pub open spec fn no_word(words: Seq<Option<String>>, tag: Seq<char>) -> bool {
    forall|j: int| 0 <= j < words.len() ==> word_text(#[trigger] words[j]) != Some(tag)
}

/// `i` is the first element of the kind `tag`.
pub open spec fn is_first_tagged(items: Seq<serde_json::Value>, tag: Seq<char>, i: int) -> bool {
    &&& 0 <= i < items.len()
    &&& is_tagged(items[i], tag)
    &&& forall|j: int| 0 <= j < i ==> !is_tagged(#[trigger] items[j], tag)
}

/// No element is of the kind `tag`.
pub open spec fn none_tagged(items: Seq<serde_json::Value>, tag: Seq<char>) -> bool {
    forall|j: int| 0 <= j < items.len() ==> !is_tagged(#[trigger] items[j], tag)
}

/// The word of a kind.
pub fn tag(kind: Hydratable) -> (r: &'static str)
    ensures
        r@ == tag_of(kind),
{
    match kind {
        Hydratable::Sound => "sound",
        Hydratable::Playlist => "playlist",
        Hydratable::User => "user",
    }
}

/// The text of the array in a page.
pub fn extract_hydration(page: &str) -> (r: Option<String>)
    ensures
        match r {
            Some(text) => hydration_text(page@) == Some(text@),
            None => hydration_text(page@) is None,
        },
{
    let chars = chars_of(page);
    let marker = chars_of(HYDRATION_MARKER);
    let end = chars_of(HYDRATION_END);
    let len = chars.len();
    proof {
        assert(chars@.subrange(0, len as int) == chars@);
    }
    let start = match find_between(&chars, &marker, 0, len) {
        None => {
            return None;
        },
        Some(at) => {
            proof {
                lemma_first_occurrence_is(chars@, marker@, at as int);
            }
            at + marker.len()
        },
    };
    let ghost rest = chars@.skip(start as int);
    let segment_end = match find_between(&chars, &marker, start, len) {
        None => len,
        Some(at) => {
            proof {
                lemma_first_occurrence_is(rest, marker@, at - start);
            }
            at
        },
    };
    let ghost segment = before(rest, marker@);
    proof {
        assert(segment == chars@.subrange(start as int, segment_end as int));
    }
    let stop = match find_between(&chars, &end, start, segment_end) {
        None => segment_end,
        Some(at) => {
            proof {
                lemma_first_occurrence_is(segment, end@, at - start);
            }
            at
        },
    };
    Some(string_of(&chars, start, stop))
}

/// The document that a page carries. A page without the array and an array
/// that is no JSON both give a `Parse` error.
pub fn hydration_document(page: &str) -> (r: Result<serde_json::Value, AppError>)
    ensures
        match hydration_text(page@) {
            None => r matches Err(AppError::Parse(m)) && m@ == no_hydration_text(),
            Some(text) => parsed(json_parse(text), r),
        },
{
    match extract_hydration(page) {
        None => Err(AppError::Parse("Could not find hydration data".to_owned())),
        Some(text) => document(parse(text.as_str())),
    }
}

/// `r` is what the library makes of an outcome of parsing: the document, or
/// a `Parse` error with the parser's message.
pub open spec fn parsed(
    outcome: Result<serde_json::Value, serde_json::Error>,
    r: Result<serde_json::Value, AppError>,
) -> bool {
    match outcome {
        Ok(doc) => r == Ok::<serde_json::Value, AppError>(doc),
        Err(e) => r matches Err(AppError::Parse(m)) && m@ == json_error_text(e),
    }
}

/// The outcome of parsing, with the parser's error turned into the
/// library's.
pub fn document(outcome: Result<serde_json::Value, serde_json::Error>) -> (r: Result<
    serde_json::Value,
    AppError,
>)
    ensures
        parsed(outcome, r),
{
    match outcome {
        Ok(doc) => Ok(doc),
        Err(e) => Err(AppError::Parse(error_text(&e))),
    }
}

/// What each element of an array says under `hydratable`.
pub fn words(items: &Vec<serde_json::Value>) -> (r: Vec<Option<String>>)
    ensures
        r.len() == items.len(),
        forall|i: int| 0 <= i < items.len() ==> word_text(#[trigger] r@[i]) == word_of(items@[i]),
{
    let mut r: Vec<Option<String>> = Vec::new();
    let mut i: usize = 0;
    while i < items.len()
        invariant
            i <= items.len(),
            r.len() == i,
            forall|j: int| 0 <= j < i ==> word_text(#[trigger] r@[j]) == word_of(items@[j]),
        decreases items.len() - i,
    {
        let word = match member(&items[i], "hydratable") {
            Some(m) => match m.as_str() {
                Some(s) => Some(s.to_owned()),
                None => None,
            },
            None => None,
        };
        r.push(word);
        i += 1;
    }
    r
}

/// The position of the first of the words that is `tag`.
pub fn first_tagged(words: &Vec<Option<String>>, tag: &str) -> (r: Option<usize>)
    ensures
        match r {
            Some(i) => is_first_word(words@, tag@, i as int),
            None => no_word(words@, tag@),
        },
{
    let mut i: usize = 0;
    while i < words.len()
        invariant
            i <= words.len(),
            forall|j: int| 0 <= j < i ==> word_text(#[trigger] words@[j]) != Some(tag@),
        decreases words.len() - i,
    {
        let hit = match &words[i] {
            Some(word) => str_eq(word.as_str(), tag),
            None => false,
        };
        if hit {
            return Some(i);
        }
        i += 1;
    }
    None
}

/// What a document holds of a kind: the entity of the first element of that
/// kind.
///
/// A document that is no array, or an array without an element of the kind,
/// gives a `Parse` error; a first element of the kind that holds nothing
/// under `data` gives `NotFound`.
pub fn hydrated<'a>(doc: &'a serde_json::Value, kind: Hydratable) -> (r: Result<
    &'a serde_json::Value,
    AppError,
>)
    ensures
        match json_elements(*doc) {
            None => r matches Err(AppError::Parse(m)) && m@ == missing_text(kind),
            Some(items) => if none_tagged(items, tag_of(kind)) {
                r matches Err(AppError::Parse(m)) && m@ == missing_text(kind)
            } else {
                exists|i: int|
                    is_first_tagged(items, tag_of(kind), i) && match json_member(
                        #[trigger] items[i],
                        "data"@,
                    ) {
                        Some(data) => r == Ok::<&serde_json::Value, AppError>(&data),
                        None => r matches Err(AppError::NotFound(m)) && m@ == missing_text(kind),
                    }
            },
        },
{
    let items = match doc.as_array() {
        None => {
            return Err(AppError::Parse(missing(kind)));
        },
        Some(items) => items,
    };
    let said = words(items);
    match first_tagged(&said, tag(kind)) {
        None => {
            proof {
                assert forall|j: int| 0 <= j < items@.len() implies !is_tagged(
                    #[trigger] items@[j],
                    tag_of(kind),
                ) by {
                    assert(word_text(said@[j]) == word_of(items@[j]));
                }
            }
            Err(AppError::Parse(missing(kind)))
        },
        Some(i) => {
            proof {
                assert(word_text(said@[i as int]) == word_of(items@[i as int]));
                assert forall|j: int| 0 <= j < i implies !is_tagged(
                    #[trigger] items@[j],
                    tag_of(kind),
                ) by {
                    assert(word_text(said@[j]) == word_of(items@[j]));
                }
                assert(is_first_tagged(items@, tag_of(kind), i as int));
            }
            match member(&items[i], "data") {
                Some(data) => Ok(data),
                None => Err(AppError::NotFound(missing(kind))),
            }
        },
    }
}

/// The text of the error for a page that holds no entity of this kind.
fn missing(kind: Hydratable) -> (r: String)
    ensures
        r@ == missing_text(kind),
{
    match kind {
        Hydratable::Sound => "Could not find track data".to_owned(),
        Hydratable::Playlist => "Could not find playlist data".to_owned(),
        Hydratable::User => "Could not find user data".to_owned(),
    }
}

} // verus!
