//! The listing of liked tracks, page by page.
//!
//! Each page names the address of the next one. The pager asks for no more
//! than a page at a time and follows the named addresses until none is named
//! or the wanted number of records is reached. Where fewer records are
//! missing than a page holds, it follows the named address with its `limit`
//! set to what is missing.

use vstd::prelude::*;
use vstd::string::StringExecFns;
use crate::soundcloud::model::{GetLikesResponse, Like};
use crate::soundcloud::request::{likes_address, likes_url};
use crate::text::{
    chars_of,
    decimal,
    find_char,
    lemma_decimal_is_digits,
    lemma_until,
    lemma_until_stops,
    matches_at,
    occurs_at,
    string_of,
    u64_to_string,
    until,
};

verus! {

/// The address, as plain text.
pub open spec fn address(href: Option<String>) -> Option<Seq<char>> {
    match href {
        Some(s) => Some(s@),
        None => None,
    }
}

/// The records after a page has come in: the records so far and those of
/// the page, and no more than `limit` of them.
pub open spec fn gathered(likes: Seq<Like>, page: Seq<Like>, limit: u32) -> Seq<Like> {
    if (likes + page).len() >= limit {
        (likes + page).take(limit as int)
    } else {
        likes + page
    }
}

/// The word by which an address says how many records are asked for.
pub open spec fn limit_key() -> Seq<char> {
    "limit="@
}

/// The parameter `limit` of an address stands at `at`: the word stands
/// there, right behind a `?` or a `&`.
pub open spec fn is_limit_at(href: Seq<char>, at: int) -> bool {
    &&& 1 <= at
    &&& href[at - 1] == '?' || href[at - 1] == '&'
    &&& occurs_at(href, limit_key(), at)
}

/// `at` is where the first parameter `limit` of an address stands.
pub open spec fn is_first_limit(href: Seq<char>, at: int) -> bool {
    &&& is_limit_at(href, at)
    &&& forall|j: int| 0 <= j < at ==> !is_limit_at(href, j)
}

/// The address has a parameter `limit`.
pub open spec fn has_limit(href: Seq<char>) -> bool {
    exists|at: int| is_limit_at(href, at)
}

/// An address with its `limit` set to `n`, and nothing else changed. The
/// value of the first parameter `limit`, which reaches to the next `&` or
/// to the end, gives way to `n`. An address without the parameter gets it
/// at its end, behind a `&` where it holds a `?` already, else behind a
/// `?`.
pub open spec fn with_limit(href: Seq<char>, n: nat) -> Seq<char> {
    if has_limit(href) {
        let value = (choose|at: int| is_first_limit(href, at)) + limit_key().len();
        let rest = href.skip(value);
        href.take(value) + decimal(n) + rest.skip(until(rest, '&').len() as int)
    } else if href.contains('?') {
        href + seq!['&'] + limit_key() + decimal(n)
    } else {
        href + seq!['?'] + limit_key() + decimal(n)
    }
}

/// What an address asks for: the value of its first parameter `limit`, as
/// it stands there.
pub open spec fn asked(href: Seq<char>) -> Seq<char>
    recommends
        has_limit(href),
{
    let value = (choose|at: int| is_first_limit(href, at)) + limit_key().len();
    until(href.skip(value), '&')
}

/// How many records a request asks for while `missing` are missing: a page,
/// or what is missing where that is less. A page size of nothing sets no
/// bound, so that every request asks for something while something is
/// missing.
pub open spec fn page_of(missing: nat, chunk_size: u32) -> nat {
    if chunk_size == 0 || missing <= chunk_size {
        missing
    } else {
        chunk_size as nat
    }
}

/// The address to ask next after a page has come in, `None` where the
/// listing is done: it is done when `limit` records are at hand or the page
/// names no further address. Else the address that the page names is
/// followed, with its `limit` set to a page, or to what is missing where
/// that is less; nothing else of the address is changed.
pub open spec fn following(
    likes: Seq<Like>,
    page: Seq<Like>,
    page_next: Option<Seq<char>>,
    limit: u32,
    chunk_size: u32,
) -> Option<Seq<char>> {
    let held = (likes + page).len();
    if held >= limit {
        None
    } else {
        match page_next {
            None => None,
            Some(href) => Some(with_limit(href, page_of((limit - held) as nat, chunk_size))),
        }
    }
}

/// How many records a request asks for while `missing` are missing.
pub fn page_size(missing: u32, chunk_size: u32) -> (r: u32)
    ensures
        r == page_of(missing as nat, chunk_size),
{
    if chunk_size == 0 || missing <= chunk_size {
        missing
    } else {
        chunk_size
    }
}

/// An address with its `limit` set to `n`, and nothing else changed.
pub fn set_limit(href: &str, n: u64) -> (r: String)
    ensures
        r@ == with_limit(href@, n as nat),
{
    let chars = chars_of(href);
    let key = chars_of("limit=");
    let len = chars.len();
    proof {
        reveal_strlit("limit=");
    }
    let mut at: usize = 1;
    while at < len
        invariant
            1 <= at,
            len == chars.len(),
            chars@ == href@,
            key@ == limit_key(),
            key@.len() == 6,
            forall|j: int| 0 <= j < at ==> !is_limit_at(chars@, j),
        decreases len - at,
    {
        let behind = chars[at - 1];
        if (behind == '?' || behind == '&') && matches_at(&chars, &key, at) {
            let value = at + key.len();
            let end = find_char(&chars, '&', value, len);
            proof {
                assert(is_first_limit(chars@, at as int));
                let chosen = choose|p: int| is_first_limit(chars@, p);
                assert(chosen == at);
                let rest = chars@.skip(value as int);
                assert forall|j: int| 0 <= j < end - value implies rest[j] != '&' by {
                    assert(rest[j] == chars@[value + j]);
                }
                lemma_until(rest, '&', end - value);
                assert(rest.skip(end - value) == chars@.subrange(end as int, len as int));
                assert(chars@.take(value as int) == chars@.subrange(0, value as int));
            }
            let mut r = string_of(&chars, 0, value);
            r.append(u64_to_string(n).as_str());
            r.append(string_of(&chars, end, len).as_str());
            return r;
        }
        at += 1;
    }
    proof {
        assert forall|j: int| !is_limit_at(chars@, j) by {
            if is_limit_at(chars@, j) {
                assert(j + 6 <= len);
            }
        }
    }
    let asked = find_char(&chars, '?', 0, len);
    let mut r = href.to_owned();
    if asked < len {
        proof {
            assert(chars@[asked as int] == '?');
            assert(href@.contains('?'));
        }
        r.push('&');
    } else {
        proof {
            assert(!href@.contains('?')) by {
                if href@.contains('?') {
                    let i = choose|i: int| 0 <= i < href@.len() && href@[i] == '?';
                    assert(chars@[i] != '?');
                }
            }
        }
        r.push('?');
    }
    r.append("limit=");
    r.append(u64_to_string(n).as_str());
    r
}

/// The state of one listing.
pub struct LikesPager {
    user_id: u64,
    limit: u32,
    chunk_size: u32,
    likes: Vec<Like>,
    next: Option<String>,
}

impl LikesPager {
    /// The user whose likes are listed.
    pub closed spec fn user_id(&self) -> u64 {
        self.user_id
    }

    /// How many records are wanted.
    pub closed spec fn limit(&self) -> u32 {
        self.limit
    }

    /// How many records a page holds.
    pub closed spec fn chunk_size(&self) -> u32 {
        self.chunk_size
    }

    /// The records at hand.
    pub closed spec fn likes(&self) -> Seq<Like> {
        self.likes@
    }

    /// The address to ask next; `None` where the listing is done.
    pub closed spec fn next(&self) -> Option<Seq<char>> {
        address(self.next)
    }

    /// Never more records are at hand than are wanted.
    pub closed spec fn wf(&self) -> bool {
        self.likes@.len() <= self.limit
    }

    /// A listing of up to `limit` liked tracks of a user, in pages of
    /// `chunk_size`. The first request asks for a page, or for the wanted
    /// number where that is less.
    pub fn new(user_id: u64, limit: u32, chunk_size: u32) -> (pager: LikesPager)
        ensures
            pager.wf(),
            pager.user_id() == user_id,
            pager.limit() == limit,
            pager.chunk_size() == chunk_size,
            pager.likes() == Seq::<Like>::empty(),
            pager.next() == Some(likes_url(user_id, page_of(limit as nat, chunk_size))),
    {
        let first = page_size(limit, chunk_size);
        LikesPager {
            user_id,
            limit,
            chunk_size,
            likes: Vec::new(),
            next: Some(likes_address(user_id, first as u64)),
        }
    }

    /// The address to ask next; `None` where the listing is done.
    pub fn next_url(&self) -> (r: Option<&String>)
        ensures
            match r {
                Some(url) => self.next() == Some(url@),
                None => self.next() is None,
            },
    {
        self.next.as_ref()
    }

    /// Takes in the page that came from the address asked last. A page that
    /// comes when the listing is done is dropped.
    pub fn accept(&mut self, page: GetLikesResponse)
        requires
            old(self).wf(),
        ensures
            final(self).wf(),
            final(self).user_id() == old(self).user_id(),
            final(self).limit() == old(self).limit(),
            final(self).chunk_size() == old(self).chunk_size(),
            final(self).likes().len() <= final(self).limit(),
            old(self).next() is None ==> {
                &&& final(self).likes() == old(self).likes()
                &&& final(self).next() is None
            },
            old(self).next() is Some ==> {
                &&& final(self).likes() == gathered(
                    old(self).likes(),
                    page.collection@,
                    old(self).limit(),
                )
                &&& final(self).next() == following(
                    old(self).likes(),
                    page.collection@,
                    address(page.next_href),
                    old(self).limit(),
                    old(self).chunk_size(),
                )
            },
    {
        if self.next.is_none() {
            return ;
        }
        let GetLikesResponse { collection, next_href } = page;
        let mut collection = collection;
        self.likes.append(&mut collection);
        let limit = self.limit as usize;
        if self.likes.len() >= limit {
            self.likes.truncate(limit);
            self.next = None;
            return ;
        }
        match next_href {
            None => {
                self.next = None;
            },
            Some(href) => {
                let missing = self.limit - self.likes.len() as u32;
                let size = page_size(missing, self.chunk_size);
                self.next = Some(set_limit(href.as_str(), size as u64));
            },
        }
    }

    /// Whether the listing is done.
    pub fn is_done(&self) -> (r: bool)
        ensures
            r == (self.next() is None),
    {
        self.next.is_none()
    }

    /// The records at hand.
    pub fn into_likes(self) -> (r: Vec<Like>)
        requires
            self.wf(),
        ensures
            r@ == self.likes(),
            r@.len() <= self.limit(),
    {
        self.likes
    }
}

/// The part of the listing that a batch downloads: `skip` records are left
/// out at the front, and no more than `limit` records are taken.
pub open spec fn window(len: nat, skip: nat, limit: nat) -> (nat, nat) {
    if skip >= len {
        (len, 0)
    } else {
        let total = if len <= limit {
            len
        } else {
            limit
        };
        let rest = (len - skip) as nat;
        (skip, if rest <= total {
            rest
        } else {
            total
        })
    }
}

/// Where the records of a batch begin in a listing of `len` records, and how
/// many they are.
pub fn likes_window(len: usize, skip: usize, limit: u32) -> (r: (usize, usize))
    ensures
        r.0 == window(len as nat, skip as nat, limit as nat).0,
        r.1 == window(len as nat, skip as nat, limit as nat).1,
        r.0 + r.1 <= len,
{
    if skip >= len {
        return (len, 0);
    }
    let total = if len <= limit as usize {
        len
    } else {
        limit as usize
    };
    let rest = len - skip;
    (skip, if rest <= total {
        rest
    } else {
        total
    })
}

/// However the pages come, never more records are gathered than are wanted,
/// and a listing that goes on still lacks some.
pub proof fn lemma_gathered_within_limit(
    likes: Seq<Like>,
    page: Seq<Like>,
    page_next: Option<Seq<char>>,
    limit: u32,
    chunk_size: u32,
)
    ensures
        gathered(likes, page, limit).len() <= limit,
        following(likes, page, page_next, limit, chunk_size) is Some ==> gathered(
            likes,
            page,
            limit,
        ).len() < limit,
        following(likes, page, page_next, limit, chunk_size) is Some ==> page_next is Some,
{
}

/// The records that are gathered are the records so far and then those of
/// the page, in their order: nothing is left out before the wanted number
/// is reached, nothing is taken twice, and nothing is put in between.
pub proof fn lemma_gathered_in_order(likes: Seq<Like>, page: Seq<Like>, limit: u32, i: int)
    requires
        likes.len() <= limit,
        0 <= i < gathered(likes, page, limit).len(),
    ensures
        i < likes.len() ==> gathered(likes, page, limit)[i] == likes[i],
        i >= likes.len() ==> gathered(likes, page, limit)[i] == page[i - likes.len()],
{
}

/// Every request asks for a page or less, and never for more than is
/// missing; and it asks for something while something is missing.
pub proof fn lemma_page_within_bounds(missing: nat, chunk_size: u32)
    ensures
        page_of(missing, chunk_size) <= missing,
        chunk_size > 0 ==> page_of(missing, chunk_size) <= chunk_size,
        missing > 0 ==> page_of(missing, chunk_size) > 0,
        missing <= chunk_size ==> page_of(missing, chunk_size) == missing,
        0 < chunk_size <= missing ==> page_of(missing, chunk_size) == chunk_size,
{
}

/// The last request is cut down to what is missing: where the listing goes
/// on and no more than a page is missing, the address that the page names
/// is followed with its `limit` set to exactly the missing ones; where more
/// is missing, with its `limit` set to a page.
pub proof fn lemma_last_page_is_shrunk(
    likes: Seq<Like>,
    page: Seq<Like>,
    href: Seq<char>,
    limit: u32,
    chunk_size: u32,
)
    requires
        (likes + page).len() < limit,
        chunk_size > 0,
    ensures
        limit - (likes + page).len() <= chunk_size ==> following(
            likes,
            page,
            Some(href),
            limit,
            chunk_size,
        ) == Some(with_limit(href, (limit - (likes + page).len()) as nat)),
        limit - (likes + page).len() > chunk_size ==> following(
            likes,
            page,
            Some(href),
            limit,
            chunk_size,
        ) == Some(with_limit(href, chunk_size as nat)),
{
}

/// An address with its `limit` set to `n` asks for `n`: it has the
/// parameter, and the value of the first one is `n` in decimal.
pub proof fn lemma_with_limit_asks(href: Seq<char>, n: nat)
    ensures
        has_limit(with_limit(href, n)),
        asked(with_limit(href, n)) == decimal(n),
{
    reveal_strlit("limit=");
    let key = limit_key();
    let number = decimal(n);
    lemma_decimal_is_digits(n);
    let set = with_limit(href, n);
    let at: int;
    let tail: Seq<char>;
    if has_limit(href) {
        let first = choose|p: int| is_limit_at(href, p);
        lemma_first_limit_exists(href, first);
        at = choose|p: int| is_first_limit(href, p);
        let value = at + key.len();
        let rest = href.skip(value);
        lemma_until_stops(rest, '&');
        tail = rest.skip(until(rest, '&').len() as int);
        assert(set == href.take(value) + number + tail);
        assert(set.subrange(at, at + key.len()) == href.subrange(at, at + key.len()));
        assert(set[at - 1] == href[at - 1]);
        assert forall|j: int| 0 <= j < at implies !is_limit_at(set, j) by {
            if is_limit_at(set, j) {
                assert(set.subrange(j, j + key.len()) == href.subrange(j, j + key.len()));
                assert(set[j - 1] == href[j - 1]);
                assert(is_limit_at(href, j));
            }
        }
        if tail.len() > 0 {
            assert(tail[0] == rest[until(rest, '&').len() as int]);
        }
    } else {
        let sep = if href.contains('?') {
            '&'
        } else {
            '?'
        };
        at = href.len() as int + 1;
        tail = Seq::empty();
        assert(set == href + seq![sep] + key + number);
        assert(set.subrange(at, at + key.len()) == key);
        assert(set[at - 1] == sep);
        assert forall|j: int| 0 <= j < at implies !is_limit_at(set, j) by {
            if is_limit_at(set, j) {
                let window = set.subrange(j, j + key.len());
                assert(window == key);
                if j + key.len() <= href.len() {
                    assert(window == href.subrange(j, j + key.len()));
                    assert(set[j - 1] == href[j - 1]);
                    assert(is_limit_at(href, j));
                } else {
                    let k = href.len() - j;
                    assert(window[k] == set[href.len() as int]);
                    assert(key[k] == sep);
                }
            }
        }
    }
    assert(is_first_limit(set, at));
    let chosen = choose|p: int| is_first_limit(set, p);
    assert(chosen == at);
    let value = at + key.len();
    let behind = set.skip(value);
    assert(behind == number + tail);
    assert forall|j: int| 0 <= j < number.len() implies behind[j] != '&' by {
        assert(behind[j] == number[j]);
    }
    if tail.len() > 0 {
        assert(behind[number.len() as int] == tail[0]);
    }
    lemma_until(behind, '&', number.len() as int);
    assert(behind.take(number.len() as int) == number);
}

/// The first address of a listing asks for `n`: `limit` is its one
/// parameter, and its value is `n` in decimal.
pub proof fn lemma_first_address_asks(user_id: u64, n: nat)
    ensures
        has_limit(likes_url(user_id, n)),
        asked(likes_url(user_id, n)) == decimal(n),
{
    reveal_strlit("limit=");
    reveal_strlit("https://api-v2.soundcloud.com/");
    reveal_strlit("users/");
    reveal_strlit("/track_likes?limit=");
    let key = limit_key();
    let base = crate::soundcloud::request::API_BASE@;
    let users = "users/"@;
    let who = decimal(user_id as nat);
    let path = "/track_likes?limit="@;
    let number = decimal(n);
    lemma_decimal_is_digits(user_id as nat);
    lemma_decimal_is_digits(n);
    let href = likes_url(user_id, n);
    assert(href == base + users + who + path + number);
    let start = (base.len() + users.len() + who.len()) as int;
    let at: int = start + 13;
    assert forall|j: int| 0 <= j < href.len() && (href[j] == '?' || href[j] == '&') implies j
        == at - 1 by {
        if j < base.len() {
            assert(href[j] == base[j]);
        } else if j < base.len() + users.len() {
            assert(href[j] == users[j - base.len()]);
        } else if j < start {
            assert(href[j] == who[j - base.len() - users.len()]);
        } else if j < start + path.len() {
            assert(href[j] == path[j - start]);
        } else {
            assert(href[j] == number[j - start - path.len()]);
        }
    }
    assert(href[at - 1] == path[12]);
    assert(href.subrange(at, at + key.len()) =~= key) by {
        assert forall|k: int| 0 <= k < 6 implies href[at + k] == key[k] by {
            assert(href[at + k] == path[13 + k]);
        }
    }
    assert(is_first_limit(href, at));
    let chosen = choose|p: int| is_first_limit(href, p);
    assert(chosen == at);
    let behind = href.skip(at + key.len());
    assert(behind == number);
    lemma_until(behind, '&', number.len() as int);
    assert(behind.take(number.len() as int) == number);
}

/// An address that has the parameter has a first one.
proof fn lemma_first_limit_exists(href: Seq<char>, at: int)
    requires
        is_limit_at(href, at),
    ensures
        exists|p: int| is_first_limit(href, p),
    decreases at,
{
    if exists|j: int| 0 <= j < at && is_limit_at(href, j) {
        let j = choose|j: int| 0 <= j < at && is_limit_at(href, j);
        lemma_first_limit_exists(href, j);
    } else {
        assert(is_first_limit(href, at));
    }
}

} // verus!
