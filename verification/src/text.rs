//! Text as sequences of characters: searching, cutting, replacing and
//! writing numbers, each with a contract over `Seq<char>`.

use vstd::prelude::*;
use vstd::string::StringExecFns;

verus! {

/// `String::push` appends one character to the end of the string.
pub assume_specification[ String::push ](s: &mut String, c: char)
    ensures
        final(s)@ == old(s)@.push(c),
;

/// `needle` stands in `hay` at position `at`.
pub open spec fn occurs_at(hay: Seq<char>, needle: Seq<char>, at: int) -> bool {
    &&& 0 <= at
    &&& at + needle.len() <= hay.len()
    &&& hay.subrange(at, at + needle.len()) == needle
}

/// `needle` stands somewhere in `hay`.
pub open spec fn contains(hay: Seq<char>, needle: Seq<char>) -> bool {
    exists|at: int| occurs_at(hay, needle, at)
}

/// `at` is the leftmost position of `needle` in `hay`.
pub open spec fn is_first_occurrence(hay: Seq<char>, needle: Seq<char>, at: int) -> bool {
    &&& occurs_at(hay, needle, at)
    &&& forall|j: int| 0 <= j < at ==> !occurs_at(hay, needle, j)
}

/// The leftmost position of `needle` in `hay`, where there is one.
pub open spec fn first_occurrence(hay: Seq<char>, needle: Seq<char>) -> int {
    choose|at: int| is_first_occurrence(hay, needle, at)
}

/// What stands before the leftmost `needle`; all of `hay` where there is none.
pub open spec fn before(hay: Seq<char>, needle: Seq<char>) -> Seq<char> {
    if contains(hay, needle) {
        hay.take(first_occurrence(hay, needle))
    } else {
        hay
    }
}

/// What stands behind the leftmost `needle`, where there is one.
pub open spec fn after(hay: Seq<char>, needle: Seq<char>) -> Option<Seq<char>> {
    if contains(hay, needle) {
        Some(hay.skip(first_occurrence(hay, needle) + needle.len()))
    } else {
        None
    }
}

/// The longest end of `s` that holds no `c`: what stands behind the last
/// `c`, and all of `s` where it holds none.
pub open spec fn after_last(s: Seq<char>, c: char) -> Seq<char>
    decreases s.len(),
{
    if s.len() == 0 || s.last() == c {
        Seq::empty()
    } else {
        after_last(s.drop_last(), c).push(s.last())
    }
}

/// The longest beginning of `s` that holds no `c`: what stands before the
/// first `c`, and all of `s` where it holds none.
pub open spec fn until(s: Seq<char>, c: char) -> Seq<char>
    decreases s.len(),
{
    if s.len() == 0 || s[0] == c {
        Seq::empty()
    } else {
        seq![s[0]] + until(s.skip(1), c)
    }
}

/// `s` with every match of `pat` replaced by `with`, matches taken from the
/// left and never overlapping. An empty `pat` matches nowhere.
pub open spec fn replaced(s: Seq<char>, pat: Seq<char>, with: Seq<char>) -> Seq<char>
    decreases s.len(),
{
    if pat.len() == 0 || s.len() < pat.len() {
        s
    } else if s.take(pat.len() as int) == pat {
        with + replaced(s.skip(pat.len() as int), pat, with)
    } else {
        seq![s[0]] + replaced(s.skip(1), pat, with)
    }
}

/// The character of the decimal digit `d`.
pub open spec fn digit(d: nat) -> char
    recommends
        d < 10,
{
    (48 + d) as char
}

/// `n` written in decimal, without leading zeros.
pub open spec fn decimal(n: nat) -> Seq<char>
    decreases n,
{
    if n < 10 {
        seq![digit(n)]
    } else {
        decimal(n / 10).push(digit(n % 10))
    }
}

/// Two positions that are both leftmost are one position.
pub proof fn lemma_first_occurrence_unique(hay: Seq<char>, needle: Seq<char>, a: int, b: int)
    requires
        is_first_occurrence(hay, needle, a),
        is_first_occurrence(hay, needle, b),
    ensures
        a == b,
{
}

/// A position that is leftmost is the one that `first_occurrence` names.
pub proof fn lemma_first_occurrence_is(hay: Seq<char>, needle: Seq<char>, at: int)
    requires
        is_first_occurrence(hay, needle, at),
    ensures
        contains(hay, needle),
        first_occurrence(hay, needle) == at,
{
    lemma_first_occurrence_unique(hay, needle, at, first_occurrence(hay, needle));
}

/// The characters of `s`, in order.
pub fn chars_of(s: &str) -> (v: Vec<char>)
    ensures
        v@ == s@,
{
    let mut v: Vec<char> = Vec::new();
    for c in it: s.chars()
        invariant
            v@ == it.seq().take(it.index() as int),
            it.seq() == s@,
    {
        v.push(c);
    }
    v
}

/// The string made of the characters `v[from..to]`.
pub(crate) fn string_of(v: &Vec<char>, from: usize, to: usize) -> (s: String)
    requires
        from <= to <= v.len(),
    ensures
        s@ == v@.subrange(from as int, to as int),
{
    let mut s = String::new();
    let mut i: usize = from;
    while i < to
        invariant
            from <= i <= to <= v.len(),
            s@ == v@.subrange(from as int, i as int),
        decreases to - i,
    {
        s.push(v[i]);
        i += 1;
    }
    s
}

/// Whether two strings hold the same characters.
pub fn str_eq(a: &str, b: &str) -> (r: bool)
    ensures
        r == (a@ == b@),
{
    let x = chars_of(a);
    let y = chars_of(b);
    if x.len() != y.len() {
        return false;
    }
    let mut i: usize = 0;
    while i < x.len()
        invariant
            x.len() == y.len(),
            x@ == a@,
            y@ == b@,
            i <= x.len(),
            x@.take(i as int) == y@.take(i as int),
        decreases x.len() - i,
    {
        if x[i] != y[i] {
            return false;
        }
        i += 1;
    }
    assert(x@ == x@.take(x.len() as int));
    assert(y@ == y@.take(y.len() as int));
    true
}

/// Whether `needle` stands in `hay` at position `at`.
pub fn matches_at(hay: &Vec<char>, needle: &Vec<char>, at: usize) -> (r: bool)
    ensures
        r == occurs_at(hay@, needle@, at as int),
{
    if needle.len() > hay.len() || at > hay.len() - needle.len() {
        return false;
    }
    let mut k: usize = 0;
    while k < needle.len()
        invariant
            k <= needle.len(),
            at + needle.len() <= hay.len(),
            hay@.subrange(at as int, at + k) == needle@.take(k as int),
        decreases needle.len() - k,
    {
        if hay[at + k] != needle[k] {
            return false;
        }
        k += 1;
    }
    assert(needle@ == needle@.take(needle.len() as int));
    true
}

/// The leftmost position of `needle` in `hay[from..to]`, counted in `hay`.
pub(crate) fn find_between(hay: &Vec<char>, needle: &Vec<char>, from: usize, to: usize) -> (r: Option<
    usize,
>)
    requires
        from <= to <= hay.len(),
    ensures
        match r {
            Some(p) => from <= p && is_first_occurrence(
                hay@.subrange(from as int, to as int),
                needle@,
                p - from,
            ),
            None => !contains(hay@.subrange(from as int, to as int), needle@),
        },
{
    let ghost window = hay@.subrange(from as int, to as int);
    if needle.len() > to - from {
        return None;
    }
    let last: usize = to - needle.len();
    let mut p: usize = from;
    while p < last
        invariant
            from <= p <= last,
            last + needle.len() == to,
            to <= hay.len(),
            window == hay@.subrange(from as int, to as int),
            forall|j: int| 0 <= j < p - from ==> !occurs_at(window, needle@, j),
        decreases last - p,
    {
        let hit = matches_at(hay, needle, p);
        proof {
            assert(window.subrange(p - from, p - from + needle.len()) == hay@.subrange(
                p as int,
                p + needle.len(),
            ));
        }
        if hit {
            return Some(p);
        }
        p += 1;
    }
    let hit = matches_at(hay, needle, p);
    proof {
        assert(window.subrange(p - from, p - from + needle.len()) == hay@.subrange(
            p as int,
            p + needle.len(),
        ));
    }
    if hit {
        Some(p)
    } else {
        None
    }
}

/// The position of the first `c` in `v[from..to]`, or `to`.
pub(crate) fn find_char(v: &Vec<char>, c: char, from: usize, to: usize) -> (p: usize)
    requires
        from <= to <= v.len(),
    ensures
        from <= p <= to,
        forall|j: int| from <= j < p ==> v@[j] != c,
        p < to ==> v@[p as int] == c,
{
    let mut p: usize = from;
    while p < to
        invariant
            from <= p <= to <= v.len(),
            forall|j: int| from <= j < p ==> v@[j] != c,
        decreases to - p,
    {
        if v[p] == c {
            return p;
        }
        p += 1;
    }
    p
}

/// `until` cuts at the first `c`.
pub proof fn lemma_until(s: Seq<char>, c: char, p: int)
    requires
        0 <= p <= s.len(),
        forall|j: int| 0 <= j < p ==> s[j] != c,
        p < s.len() ==> s[p] == c,
    ensures
        until(s, c) == s.take(p),
    decreases p,
{
    if p > 0 {
        let rest = s.skip(1);
        assert forall|j: int| 0 <= j < p - 1 implies rest[j] != c by {
            assert(rest[j] == s[j + 1]);
        }
        lemma_until(rest, c, p - 1);
    }
}

/// The decimal form of a number holds digits alone.
pub proof fn lemma_decimal_is_digits(n: nat)
    ensures
        decimal(n).len() >= 1,
        forall|i: int| 0 <= i < decimal(n).len() ==> '0' <= #[trigger] decimal(n)[i] <= '9',
    decreases n,
{
    if n >= 10 {
        lemma_decimal_is_digits(n / 10);
    }
}

/// Where `until` stops: at the end, or at the first `c`.
pub proof fn lemma_until_stops(s: Seq<char>, c: char)
    ensures
        until(s, c).len() <= s.len(),
        until(s, c) == s.take(until(s, c).len() as int),
        forall|j: int| 0 <= j < until(s, c).len() ==> s[j] != c,
        until(s, c).len() < s.len() ==> s[until(s, c).len() as int] == c,
    decreases s.len(),
{
    if s.len() > 0 && s[0] != c {
        let rest = s.skip(1);
        lemma_until_stops(rest, c);
        let n = until(rest, c).len() as int;
        assert(until(s, c) == seq![s[0]] + until(rest, c));
        assert(seq![s[0]] + rest.take(n) == s.take(n + 1));
        assert forall|j: int| 0 <= j < n + 1 implies s[j] != c by {
            if j > 0 {
                assert(rest[j - 1] == s[j]);
            }
        }
        if n < rest.len() {
            assert(rest[n] == s[n + 1]);
        }
    } else {
        assert(s.take(0) == Seq::<char>::empty());
    }
}

/// Where the longest end of `v[from..]` without `c` begins.
pub(crate) fn start_after_last(v: &Vec<char>, c: char, from: usize) -> (p: usize)
    requires
        from <= v.len(),
    ensures
        from <= p <= v.len(),
        v@.skip(p as int) == after_last(v@.skip(from as int), c),
{
    let ghost tail = v@.skip(from as int);
    let mut p: usize = from;
    let mut i: usize = from;
    while i < v.len()
        invariant
            from <= p <= i <= v.len(),
            tail == v@.skip(from as int),
            v@.subrange(p as int, i as int) == after_last(tail.take(i - from), c),
        decreases v.len() - i,
    {
        proof {
            assert(tail.take(i + 1 - from).drop_last() == tail.take(i - from));
        }
        if v[i] == c {
            p = i + 1;
        }
        i += 1;
    }
    proof {
        assert(tail.take(v.len() - from) == tail);
    }
    p
}

/// `s` with every match of `pat` replaced by `with`.
pub fn replace_all(s: &str, pat: &str, with: &str) -> (r: String)
    ensures
        r@ == replaced(s@, pat@, with@),
{
    let text = chars_of(s);
    let from = chars_of(pat);
    let mut out = String::new();
    if from.len() == 0 {
        out.append(s);
        return out;
    }
    let mut i: usize = 0;
    proof {
        assert(text@.skip(0) == text@);
    }
    while i < text.len()
        invariant
            i <= text.len(),
            from.len() > 0,
            text@ == s@,
            from@ == pat@,
            out@ + replaced(text@.skip(i as int), from@, with@) == replaced(text@, from@, with@),
        decreases text.len() - i,
    {
        let ghost tail = text@.skip(i as int);
        let hit = matches_at(&text, &from, i);
        proof {
            if from.len() <= tail.len() {
                assert(tail.take(from.len() as int) == text@.subrange(
                    i as int,
                    i + from.len(),
                ));
            }
        }
        if hit {
            out.append(with);
            proof {
                assert(tail.skip(from.len() as int) == text@.skip(i + from.len()));
            }
            i += from.len();
        } else {
            out.push(text[i]);
            proof {
                assert(tail.skip(1) == text@.skip(i + 1));
                if tail.len() < from.len() {
                    lemma_replaced_short(tail, from@, with@);
                    lemma_replaced_short(tail.skip(1), from@, with@);
                }
            }
            i += 1;
        }
    }
    out
}

/// A text shorter than the pattern is left as it is.
proof fn lemma_replaced_short(s: Seq<char>, pat: Seq<char>, with: Seq<char>)
    requires
        s.len() < pat.len(),
    ensures
        replaced(s, pat, with) == s,
{
}

/// `n` written in decimal.
pub fn u64_to_string(n: u64) -> (r: String)
    ensures
        r@ == decimal(n as nat),
    decreases n,
{
    let d: u8 = (n % 10) as u8;
    let c: char = (48u8 + d) as char;
    if n < 10 {
        let mut r = String::new();
        r.push(c);
        r
    } else {
        let mut r = u64_to_string(n / 10);
        r.push(c);
        r
    }
}

} // verus!
