//! Names that are safe for a file.

use vstd::prelude::*;
use crate::text::{chars_of, string_of};

verus! {

/// The longest name that is kept, in characters.
pub const MAX_NAME_LEN: usize = 255;

/// What `char::is_whitespace` says of a character: whether it has the
/// Unicode property `White_Space`.
pub uninterp spec fn char_is_whitespace(c: char) -> bool;

/// `char::is_whitespace`.
#[verifier::external_body]
fn is_whitespace(c: char) -> (r: bool)
    ensures
        r == char_is_whitespace(c),
{
    c.is_whitespace()
}

/// A character, and whether it is white space.
#[derive(Clone, Copy, Debug, PartialEq, Eq)]
pub struct Mark {
    pub c: char,
    pub white: bool,
}

/// A character with what `char::is_whitespace` says of it.
pub open spec fn mark_of(c: char) -> Mark {
    Mark { c, white: char_is_whitespace(c) }
}

/// The characters of a text, each with what `char::is_whitespace` says of
/// it.
pub open spec fn marked(s: Seq<char>) -> Seq<Mark> {
    Seq::new(s.len(), |i: int| mark_of(s[i]))
}

/// Marks of underscores and white space alone, or none at all.
pub open spec fn blank(marks: Seq<Mark>) -> bool {
    forall|i: int| 0 <= i < marks.len() ==> (#[trigger] marks[i]).c == '_' || marks[i].white
}

/// A name of underscores and white space alone, or of nothing at all.
pub open spec fn is_blank(s: Seq<char>) -> bool {
    blank(marked(s))
}

/// A character that a file name must not hold.
pub open spec fn is_invalid_char(c: char) -> bool {
    c == '\\' || c == '/' || c == ':' || c == '*' || c == '?' || c == '"' || c == '<' || c == '>'
        || c == '|'
}

/// The character that stands for `c` in a file name.
pub open spec fn safe_char(c: char) -> char {
    if is_invalid_char(c) {
        '_'
    } else {
        c
    }
}

/// `s` with an underscore for each character that a file name must not
/// hold.
pub open spec fn replace_invalid(s: Seq<char>) -> Seq<char> {
    Seq::new(s.len(), |i: int| safe_char(s[i]))
}

/// A name that stands for a device where such names are reserved: `CON`,
/// `PRN`, `AUX`, `NUL`, and `COM` or `LPT` with a digit from 1 to 9.
pub open spec fn is_reserved(s: Seq<char>) -> bool {
    ||| s == seq!['C', 'O', 'N']
    ||| s == seq!['P', 'R', 'N']
    ||| s == seq!['A', 'U', 'X']
    ||| s == seq!['N', 'U', 'L']
    ||| (s.len() == 4 && s.take(3) == seq!['C', 'O', 'M'] && '1' <= s[3] <= '9')
    ||| (s.len() == 4 && s.take(3) == seq!['L', 'P', 'T'] && '1' <= s[3] <= '9')
}

/// `s`, and no more than its first `MAX_NAME_LEN` characters.
pub open spec fn truncated(s: Seq<char>) -> Seq<char> {
    if s.len() > MAX_NAME_LEN {
        s.take(MAX_NAME_LEN as int)
    } else {
        s
    }
}

/// The safe form of a name. Each character that a file name must not hold
/// gives way to an underscore. Where device names are reserved
/// (`reserved`), a name that is one gets an underscore at its end. The
/// result is cut to `MAX_NAME_LEN` characters.
pub open spec fn sanitized(name: Seq<char>, reserved: bool) -> Seq<char> {
    let safe = replace_invalid(name);
    if reserved && is_reserved(safe) {
        truncated(safe.push('_'))
    } else {
        truncated(safe)
    }
}

/// The characters of a text, each with whether it is white space.
pub fn mark(s: &str) -> (marks: Vec<Mark>)
    ensures
        marks@ == marked(s@),
{
    let chars = chars_of(s);
    let mut marks: Vec<Mark> = Vec::new();
    let mut i: usize = 0;
    while i < chars.len()
        invariant
            i <= chars.len(),
            marks@ == marked(chars@).take(i as int),
        decreases chars.len() - i,
    {
        let c = chars[i];
        marks.push(Mark { c, white: is_whitespace(c) });
        assert(marked(chars@).take(i + 1) == marked(chars@).take(i as int).push(mark_of(c)));
        i += 1;
    }
    assert(marked(chars@).take(chars.len() as int) == marked(chars@));
    marks
}

/// Whether the marks are of underscores and white space alone.
pub fn is_blank_marked(marks: &Vec<Mark>) -> (r: bool)
    ensures
        r == blank(marks@),
{
    let mut i: usize = 0;
    while i < marks.len()
        invariant
            i <= marks.len(),
            forall|j: int| 0 <= j < i ==> (#[trigger] marks@[j]).c == '_' || marks@[j].white,
        decreases marks.len() - i,
    {
        if marks[i].c != '_' && !marks[i].white {
            return false;
        }
        i += 1;
    }
    true
}

/// Whether a name is blank: empty, or of underscores and white space alone.
pub fn is_empty(s: &str) -> (r: bool)
    ensures
        r == is_blank(s@),
{
    is_blank_marked(&mark(s))
}

/// Whether a character must not stand in a file name.
fn is_invalid(c: char) -> (r: bool)
    ensures
        r == is_invalid_char(c),
{
    c == '\\' || c == '/' || c == ':' || c == '*' || c == '?' || c == '"' || c == '<' || c == '>'
        || c == '|'
}

/// Whether a name stands for a device.
fn is_reserved_name(v: &Vec<char>) -> (r: bool)
    ensures
        r == is_reserved(v@),
{
    if v.len() == 3 {
        let (a, b, c) = (v[0], v[1], v[2]);
        proof {
            lemma_three(v@, 'C', 'O', 'N');
            lemma_three(v@, 'P', 'R', 'N');
            lemma_three(v@, 'A', 'U', 'X');
            lemma_three(v@, 'N', 'U', 'L');
        }
        (a == 'C' && b == 'O' && c == 'N') || (a == 'P' && b == 'R' && c == 'N') || (a == 'A' && b
            == 'U' && c == 'X') || (a == 'N' && b == 'U' && c == 'L')
    } else if v.len() == 4 {
        let (a, b, c, d) = (v[0], v[1], v[2], v[3]);
        proof {
            lemma_three(v@.take(3), 'C', 'O', 'M');
            lemma_three(v@.take(3), 'L', 'P', 'T');
        }
        ((a == 'C' && b == 'O' && c == 'M') || (a == 'L' && b == 'P' && c == 'T')) && '1' <= d && d
            <= '9'
    } else {
        false
    }
}

/// A text of three characters is `xyz` exactly when its characters are `x`,
/// `y` and `z`.
proof fn lemma_three(s: Seq<char>, x: char, y: char, z: char)
    requires
        s.len() == 3,
    ensures
        s == seq![x, y, z] <==> s[0] == x && s[1] == y && s[2] == z,
{
    let t = seq![x, y, z];
    if s[0] == x && s[1] == y && s[2] == z {
        assert(s =~= t);
    }
}

/// The safe form of a name, with or without the rule for device names.
pub fn sanitize_for(name: &str, reserved: bool) -> (r: String)
    ensures
        r@ == sanitized(name@, reserved),
{
    let chars = chars_of(name);
    let mut safe: Vec<char> = Vec::new();
    let mut i: usize = 0;
    while i < chars.len()
        invariant
            i <= chars.len(),
            safe@ == replace_invalid(chars@).take(i as int),
        decreases chars.len() - i,
    {
        let c = chars[i];
        safe.push(if is_invalid(c) {
            '_'
        } else {
            c
        });
        i += 1;
    }
    assert(replace_invalid(chars@).take(chars.len() as int) == replace_invalid(chars@));
    if reserved && is_reserved_name(&safe) {
        safe.push('_');
    }
    let keep = if safe.len() > MAX_NAME_LEN {
        MAX_NAME_LEN
    } else {
        safe.len()
    };
    string_of(&safe, 0, keep)
}

/// The safe form of a name where no device names are reserved.
pub fn sanitize(name: &str) -> (r: String)
    ensures
        r@ == sanitized(name@, false),
{
    sanitize_for(name, false)
}

/// A safe name holds no character that a file name must not hold, and is
/// never longer than `MAX_NAME_LEN`.
pub proof fn lemma_sanitized_is_safe(name: Seq<char>, reserved: bool)
    ensures
        sanitized(name, reserved).len() <= MAX_NAME_LEN,
        forall|i: int|
            0 <= i < sanitized(name, reserved).len() ==> !is_invalid_char(
                #[trigger] sanitized(name, reserved)[i],
            ),
{
}

/// A name that is safe already and short enough stays as it is, where no
/// device names are reserved; so to make a name safe twice is to make it
/// safe once.
pub proof fn lemma_sanitized_twice(name: Seq<char>)
    ensures
        sanitized(sanitized(name, false), false) == sanitized(name, false),
{
    let once = sanitized(name, false);
    lemma_sanitized_is_safe(name, false);
}

/// The marks without the white space at their beginning.
pub open spec fn trim_start(marks: Seq<Mark>) -> Seq<Mark>
    decreases marks.len(),
{
    if marks.len() > 0 && marks[0].white {
        trim_start(marks.skip(1))
    } else {
        marks
    }
}

/// The marks without the white space at their end.
pub open spec fn trim_end(marks: Seq<Mark>) -> Seq<Mark>
    decreases marks.len(),
{
    if marks.len() > 0 && marks.last().white {
        trim_end(marks.drop_last())
    } else {
        marks
    }
}

/// Marks that say yes: nothing at all, or `y` in either case, apart from the
/// white space around it.
pub open spec fn yes(marks: Seq<Mark>) -> bool {
    let word = trim_end(trim_start(marks));
    word.len() == 0 || (word.len() == 1 && (word[0].c == 'y' || word[0].c == 'Y'))
}

/// An answer that says yes: nothing at all, or `y` in either case, apart
/// from the white space around it.
pub open spec fn says_yes(answer: Seq<char>) -> bool {
    yes(marked(answer))
}

/// White space at the beginning is cut off one mark at a time.
proof fn lemma_trim_start(marks: Seq<Mark>, a: int)
    requires
        0 <= a <= marks.len(),
        forall|j: int| 0 <= j < a ==> (#[trigger] marks[j]).white,
        a < marks.len() ==> !marks[a].white,
    ensures
        trim_start(marks) == marks.skip(a),
    decreases a,
{
    if a > 0 {
        let rest = marks.skip(1);
        assert forall|j: int| 0 <= j < a - 1 implies (#[trigger] rest[j]).white by {
            assert(rest[j] == marks[j + 1]);
        }
        lemma_trim_start(rest, a - 1);
    }
}

/// White space at the end is cut off one mark at a time.
proof fn lemma_trim_end(marks: Seq<Mark>, b: int)
    requires
        0 <= b <= marks.len(),
        forall|j: int| b <= j < marks.len() ==> (#[trigger] marks[j]).white,
        b > 0 ==> !marks[b - 1].white,
    ensures
        trim_end(marks) == marks.take(b),
    decreases marks.len() - b,
{
    if b < marks.len() {
        lemma_trim_end(marks.drop_last(), b);
    }
}

/// Whether the marks say yes.
pub fn says_yes_marked(marks: &Vec<Mark>) -> (r: bool)
    ensures
        r == yes(marks@),
{
    let mut a: usize = 0;
    while a < marks.len() && marks[a].white
        invariant
            a <= marks.len(),
            forall|j: int| 0 <= j < a ==> (#[trigger] marks@[j]).white,
        decreases marks.len() - a,
    {
        a += 1;
    }
    let mut b: usize = marks.len();
    while b > a && marks[b - 1].white
        invariant
            a <= b <= marks.len(),
            forall|j: int| b <= j < marks.len() ==> (#[trigger] marks@[j]).white,
        decreases b,
    {
        b -= 1;
    }
    proof {
        let rest = marks@.skip(a as int);
        lemma_trim_start(marks@, a as int);
        assert forall|j: int| b - a <= j < rest.len() implies (#[trigger] rest[j]).white by {
            assert(rest[j] == marks@[a + j]);
        }
        lemma_trim_end(rest, b - a);
    }
    b == a || (b - a == 1 && (marks[a].c == 'y' || marks[a].c == 'Y'))
}

/// Whether an answer to a question says yes.
pub fn accepts(answer: &str) -> (r: bool)
    ensures
        r == says_yes(answer@),
{
    says_yes_marked(&mark(answer))
}

} // verus!
