//! Text matching for catalog search: whether one text occurs in another when
//! the case of letters is ignored.

use vstd::prelude::*;
use vstd::string::{StrSliceExecFns, StringExecFns};

verus! {

/// The lowercase form of a text as `str::to_lowercase` gives it.
pub uninterp spec fn lowercase_text(text: Seq<char>) -> Seq<char>;

/// Calls `str::to_lowercase`, which maps each character to its Unicode
/// lowercase form without regard to a locale. The contract names the result.
#[verifier::external_body]
fn lowercase(text: &str) -> (lower: String)
    ensures
        lower@ == lowercase_text(text@),
{
    text.to_lowercase()
}

/// Whether `pattern` stands in `text` at position `at`.
pub open spec fn occurs_at(text: Seq<char>, pattern: Seq<char>, at: int) -> bool {
    &&& 0 <= at
    &&& at + pattern.len() <= text.len()
    &&& text.subrange(at, at + pattern.len()) == pattern
}

/// Whether `pattern` stands somewhere in `text`. The empty pattern does.
pub open spec fn occurs_in(text: Seq<char>, pattern: Seq<char>) -> bool {
    exists|at: int| occurs_at(text, pattern, at)
}

/// Whether `pattern` stands somewhere in `text` once both are in lowercase.
pub open spec fn occurs_ignoring_case(text: Seq<char>, pattern: Seq<char>) -> bool {
    occurs_in(lowercase_text(text), lowercase_text(pattern))
}

/// The characters of a text.
pub fn chars_of(text: &str) -> (chars: Vec<char>)
    ensures
        chars@ == text@,
{
    let len = text.unicode_len();
    let mut chars: Vec<char> = Vec::new();
    let mut i: usize = 0;
    while i < len
        invariant
            len == text@.len(),
            i <= len,
            chars@ == text@.take(i as int),
        decreases len - i,
    {
        let c = text.get_char(i);
        proof {
            assert(text@.take(i + 1) =~= text@.take(i as int).push(c));
        }
        chars.push(c);
        i += 1;
    }
    proof {
        assert(text@.take(len as int) =~= text@);
    }
    chars
}

fn stands_at(text: &Vec<char>, pattern: &Vec<char>, at: usize) -> (found: bool)
    requires
        at + pattern.len() <= text.len(),
    ensures
        found == occurs_at(text@, pattern@, at as int),
{
    let mut k: usize = 0;
    while k < pattern.len()
        invariant
            k <= pattern.len(),
            at + pattern.len() <= text.len(),
            forall|j: int| 0 <= j < k ==> text@[at + j] == pattern@[j],
        decreases pattern.len() - k,
    {
        if text[at + k] != pattern[k] {
            proof {
                assert(text@.subrange(at as int, at + pattern.len())[k as int] == text@[at + k]);
            }
            return false;
        }
        k += 1;
    }
    proof {
        assert(text@.subrange(at as int, at + pattern.len()) =~= pattern@);
    }
    true
}

/// Whether `pattern` stands somewhere in `text`, character for character.
pub fn contains_chars(text: &Vec<char>, pattern: &Vec<char>) -> (found: bool)
    ensures
        found == occurs_in(text@, pattern@),
{
    if pattern.len() > text.len() {
        return false;
    }
    let last: usize = text.len() - pattern.len();
    let mut at: usize = 0;
    while at < last
        invariant
            last == text.len() - pattern.len(),
            at <= last,
            forall|j: int| 0 <= j < at ==> !occurs_at(text@, pattern@, j),
        decreases last - at,
    {
        if stands_at(text, pattern, at) {
            return true;
        }
        at += 1;
    }
    stands_at(text, pattern, last)
}

/// Whether `pattern` stands somewhere in `text` when the case of letters is
/// ignored.
pub fn contains_ignoring_case(text: &str, pattern: &str) -> (found: bool)
    ensures
        found == occurs_ignoring_case(text@, pattern@),
{
    let text_lower = lowercase(text);
    let pattern_lower = lowercase(pattern);
    let text_chars = chars_of(text_lower.as_str());
    let pattern_chars = chars_of(pattern_lower.as_str());
    contains_chars(&text_chars, &pattern_chars)
}

/// Whether a character has a meaning of its own in a `LIKE` pattern: the
/// two wildcards and the backslash that escapes them.
pub open spec fn is_pattern_character(c: char) -> bool {
    c == '%' || c == '_' || c == '\\'
}

/// A text in which a backslash stands before every character that has a
/// meaning of its own in a `LIKE` pattern.
pub open spec fn escaped(text: Seq<char>) -> Seq<char>
    decreases text.len(),
{
    if text.len() == 0 {
        Seq::empty()
    } else if is_pattern_character(text.last()) {
        escaped(text.drop_last()).push('\\').push(text.last())
    } else {
        escaped(text.drop_last()).push(text.last())
    }
}

/// The `LIKE` pattern that matches the texts in which `needle` occurs
/// anywhere, character for character.
pub open spec fn containing_pattern(needle: Seq<char>) -> Seq<char> {
    seq!['%'] + escaped(needle) + seq!['%']
}

/// The `LIKE` pattern that matches the texts in which `needle` occurs
/// anywhere: the needle between two wildcards, with its own wildcards and
/// backslashes escaped by a backslash.
pub fn like_pattern(needle: &str) -> (pattern: String)
    ensures
        pattern@ == containing_pattern(needle@),
{
    proof {
        reveal_strlit("%");
        reveal_strlit("\\");
        assert("%"@ =~= seq!['%']);
        assert("\\"@ =~= seq!['\\']);
    }
    let len = needle.unicode_len();
    let mut pattern = String::from_str("%");
    let mut i: usize = 0;
    proof {
        assert(needle@.take(0) =~= Seq::empty());
        assert(pattern@ =~= seq!['%'] + escaped(needle@.take(0)));
    }
    while i < len
        invariant
            len == needle@.len(),
            i <= len,
            "\\"@ == seq!['\\'],
            pattern@ == seq!['%'] + escaped(needle@.take(i as int)),
        decreases len - i,
    {
        let c = needle.get_char(i);
        let ghost before = pattern@;
        if c == '%' || c == '_' || c == '\\' {
            pattern.append("\\");
        }
        pattern.append(needle.substring_char(i, i + 1));
        proof {
            assert(needle@.take(i + 1).drop_last() =~= needle@.take(i as int));
            assert(needle@.take(i + 1).last() == c);
            assert(needle@.subrange(i as int, i + 1) =~= seq![c]);
            assert(pattern@ =~= seq!['%'] + escaped(needle@.take(i + 1)));
        }
        i += 1;
    }
    proof {
        assert(needle@.take(len as int) =~= needle@);
    }
    pattern.append("%");
    proof {
        assert(pattern@ =~= containing_pattern(needle@));
    }
    pattern
}

/// The character of a decimal digit.
pub open spec fn digit(d: int) -> char {
    if d == 0 {
        '0'
    } else if d == 1 {
        '1'
    } else if d == 2 {
        '2'
    } else if d == 3 {
        '3'
    } else if d == 4 {
        '4'
    } else if d == 5 {
        '5'
    } else if d == 6 {
        '6'
    } else if d == 7 {
        '7'
    } else if d == 8 {
        '8'
    } else {
        '9'
    }
}

/// A natural number in decimal digits, without leading zeros.
pub open spec fn decimal(n: nat) -> Seq<char>
    decreases n,
{
    if n < 10 {
        seq![digit(n as int)]
    } else {
        decimal(n / 10).push(digit((n % 10) as int))
    }
}

/// An integer in decimal digits, with a minus sign where it is negative.
pub open spec fn signed_decimal(n: int) -> Seq<char> {
    if n < 0 {
        seq!['-'] + decimal((-n) as nat)
    } else {
        decimal(n as nat)
    }
}

fn digit_text(d: u64) -> (text: &'static str)
    requires
        d < 10,
    ensures
        text@ == seq![digit(d as int)],
{
    proof {
        reveal_strlit("0");
        reveal_strlit("1");
        reveal_strlit("2");
        reveal_strlit("3");
        reveal_strlit("4");
        reveal_strlit("5");
        reveal_strlit("6");
        reveal_strlit("7");
        reveal_strlit("8");
        reveal_strlit("9");
    }
    let text = if d == 0 {
        "0"
    } else if d == 1 {
        "1"
    } else if d == 2 {
        "2"
    } else if d == 3 {
        "3"
    } else if d == 4 {
        "4"
    } else if d == 5 {
        "5"
    } else if d == 6 {
        "6"
    } else if d == 7 {
        "7"
    } else if d == 8 {
        "8"
    } else {
        "9"
    };
    assert(text@ =~= seq![digit(d as int)]);
    text
}

fn append_decimal(out: &mut String, n: u64)
    ensures
        final(out)@ == old(out)@ + decimal(n as nat),
    decreases n,
{
    if n >= 10 {
        append_decimal(out, n / 10);
    }
    out.append(digit_text(n % 10));
    proof {
        assert(out@ =~= old(out)@ + decimal(n as nat));
    }
}

/// Appends an integer in decimal digits.
pub fn append_integer(out: &mut String, n: i64)
    ensures
        final(out)@ == old(out)@ + signed_decimal(n as int),
{
    if n < 0 {
        proof {
            reveal_strlit("-");
            assert("-"@ =~= seq!['-']);
        }
        out.append("-");
        let magnitude: u64 = ((-(n + 1)) as u64) + 1;
        append_decimal(out, magnitude);
        proof {
            assert(out@ =~= old(out)@ + signed_decimal(n as int));
        }
    } else {
        append_decimal(out, n as u64);
    }
}

} // verus!
