//! Text handling shared by the extractors: trimming, substring search,
//! comparison, and the parsing of counts such as `12,345`.

use vstd::prelude::*;

verus! {

/// Whether `c` has the Unicode `White_Space` property, which is what
/// `str::trim` removes from both ends of a string: the controls from tab to
/// carriage return, the space, next line, the no-break space, the Ogham space
/// mark, the spaces from en quad to hair space, the line and the paragraph
/// separator, the narrow no-break space, the medium mathematical space and
/// the ideographic space.
pub open spec fn is_whitespace(c: char) -> bool {
    ||| '\u{9}' <= c <= '\u{d}'
    ||| c == ' '
    ||| c == '\u{85}'
    ||| c == '\u{a0}'
    ||| c == '\u{1680}'
    ||| '\u{2000}' <= c <= '\u{200a}'
    ||| c == '\u{2028}'
    ||| c == '\u{2029}'
    ||| c == '\u{202f}'
    ||| c == '\u{205f}'
    ||| c == '\u{3000}'
}

/// `s` without its leading white space.
pub open spec fn trim_start(s: Seq<char>) -> Seq<char>
    decreases s.len(),
{
    if s.len() > 0 && is_whitespace(s.first()) {
        trim_start(s.drop_first())
    } else {
        s
    }
}

/// `s` without its trailing white space.
pub open spec fn trim_end(s: Seq<char>) -> Seq<char>
    decreases s.len(),
{
    if s.len() > 0 && is_whitespace(s.last()) {
        trim_end(s.drop_last())
    } else {
        s
    }
}

/// `s` without leading and trailing white space.
pub open spec fn trimmed(s: Seq<char>) -> Seq<char> {
    trim_end(trim_start(s))
}

/// Whether every character of `s` from `from` up to `to` is white space.
pub open spec fn all_whitespace(s: Seq<char>, from: int, to: int) -> bool {
    forall|k: int| from <= k < to ==> is_whitespace(#[trigger] s[k])
}

/// Whether `inner` is `s` from `from` up to `to`, with nothing but white
/// space left out and no white space at either end of what is kept.
pub open spec fn is_trim_of(inner: Seq<char>, s: Seq<char>, from: int, to: int) -> bool {
    &&& 0 <= from <= to <= s.len()
    &&& inner == s.subrange(from, to)
    &&& all_whitespace(s, 0, from)
    &&& all_whitespace(s, to, s.len() as int)
    &&& from < to ==> !is_whitespace(s[from]) && !is_whitespace(s[to - 1])
}

/// What is left of `s` without its leading white space starts at the first
/// character that is no white space.
pub proof fn lemma_trim_start(s: Seq<char>) -> (from: int)
    ensures
        0 <= from <= s.len(),
        trim_start(s) == s.subrange(from, s.len() as int),
        all_whitespace(s, 0, from),
        from < s.len() ==> !is_whitespace(s[from]),
    decreases s.len(),
{
    if s.len() > 0 && is_whitespace(s.first()) {
        let rest = s.drop_first();
        let inner = lemma_trim_start(rest);
        assert(rest.subrange(inner, rest.len() as int) =~= s.subrange(inner + 1, s.len() as int));
        assert forall|k: int| 0 <= k < inner + 1 implies is_whitespace(#[trigger] s[k]) by {
            if k > 0 {
                assert(s[k] == rest[k - 1]);
            }
        }
        assert(inner < rest.len() ==> s[inner + 1] == rest[inner]);
        inner + 1
    } else {
        assert(s.subrange(0, s.len() as int) =~= s);
        0
    }
}

/// What is left of `s` without its trailing white space ends behind the last
/// character that is no white space.
pub proof fn lemma_trim_end(s: Seq<char>) -> (to: int)
    ensures
        0 <= to <= s.len(),
        trim_end(s) == s.subrange(0, to),
        all_whitespace(s, to, s.len() as int),
        0 < to ==> !is_whitespace(s[to - 1]),
    decreases s.len(),
{
    if s.len() > 0 && is_whitespace(s.last()) {
        let rest = s.drop_last();
        let to = lemma_trim_end(rest);
        assert(rest.subrange(0, to) =~= s.subrange(0, to));
        assert forall|k: int| to <= k < s.len() implies is_whitespace(#[trigger] s[k]) by {
            if k < rest.len() {
                assert(s[k] == rest[k]);
            }
        }
        assert(0 < to ==> s[to - 1] == rest[to - 1]);
        to
    } else {
        assert(s.subrange(0, s.len() as int) =~= s);
        s.len() as int
    }
}

/// Trimming keeps one contiguous part of the text, leaves out nothing but
/// white space, and leaves no white space at either end of what it keeps.
pub proof fn lemma_trimmed(s: Seq<char>) -> (bounds: (int, int))
    ensures
        is_trim_of(trimmed(s), s, bounds.0, bounds.1),
{
    let from = lemma_trim_start(s);
    let tail = s.subrange(from, s.len() as int);
    let kept = lemma_trim_end(tail);
    let to = from + kept;
    assert(tail.subrange(0, kept) =~= s.subrange(from, to));
    assert forall|k: int| to <= k < s.len() implies is_whitespace(#[trigger] s[k]) by {
        assert(s[k] == tail[k - from]);
    }
    if from < to {
        assert(s[from] == tail[0]);
        assert(s[to - 1] == tail[kept - 1]);
    }
    (from, to)
}

/// Whether `needle` occurs in `haystack` as a contiguous run of characters.
pub open spec fn occurs_in(needle: Seq<char>, haystack: Seq<char>) -> bool {
    exists|i: int|
        0 <= i && i + needle.len() <= haystack.len() && #[trigger] haystack.subrange(
            i,
            i + needle.len(),
        ) == needle
}

/// Trusted: `str::trim`. The standard library documents that it returns the
/// slice with leading and trailing white space removed, white space being the
/// characters with the Unicode `White_Space` property.
#[verifier::external_body]
pub(crate) fn trim(text: &str) -> (inner: &str)
    ensures
        inner@ == trimmed(text@),
{
    text.trim()
}

/// Trusted: `str::contains` with a string pattern. The standard library
/// documents that it returns `true` exactly when the pattern matches a
/// sub-slice of the string.
#[verifier::external_body]
pub(crate) fn contains(haystack: &str, needle: &str) -> (found: bool)
    ensures
        found == occurs_in(needle@, haystack@),
{
    haystack.contains(needle)
}

/// Whether two texts hold the same characters.
pub fn same_text(left: &str, right: &str) -> (same: bool)
    ensures
        same == (left@ == right@),
{
    left.to_owned() == right.to_owned()
}

/// The largest count a page may state.
pub const COUNT_LIMIT: u32 = 2147483647;

/// The character that groups the digits of a count by thousands.
pub const SEPARATOR: char = ',';

/// Whether `c` is one of the ten decimal digits.
pub open spec fn is_digit(c: char) -> bool {
    '0' <= c && c <= '9'
}

/// The value of the decimal digit `c`.
pub open spec fn digit_value(c: char) -> nat
    recommends
        is_digit(c),
{
    (c as int - '0' as int) as nat
}

/// Whether `s` consists of decimal digits only.
pub open spec fn all_digits(s: Seq<char>) -> bool {
    forall|i: int| 0 <= i < s.len() ==> is_digit(#[trigger] s[i])
}

/// The number that the digits of `s` write in base ten.
pub open spec fn decimal(s: Seq<char>) -> nat
    recommends
        all_digits(s),
    decreases s.len(),
{
    if s.len() == 0 {
        0
    } else {
        decimal(s.drop_last()) * 10 + digit_value(s.last())
    }
}

/// `s` with every thousands separator removed.
pub open spec fn without_separators(s: Seq<char>) -> Seq<char> {
    s.filter(|c: char| c != SEPARATOR)
}

/// The count that `s` states: its digits, once the separators are removed,
/// read in base ten. There is none if nothing is left, if anything but a
/// digit is left, or if the number exceeds [`COUNT_LIMIT`].
pub open spec fn count_of(s: Seq<char>) -> Option<u32> {
    let digits = without_separators(s);
    if digits.len() > 0 && all_digits(digits) && decimal(digits) <= COUNT_LIMIT {
        Some(decimal(digits) as u32)
    } else {
        None
    }
}

/// Removing separators from `s` followed by `c` keeps `c` unless it is one.
pub proof fn lemma_without_separators_push(s: Seq<char>, c: char)
    ensures
        without_separators(s.push(c)) == if c == SEPARATOR {
            without_separators(s)
        } else {
            without_separators(s).push(c)
        },
{
    reveal(Seq::filter);
    assert(s.push(c).drop_last() == s);
}

/// A character other than a separator survives the removal of separators.
pub proof fn lemma_without_separators_keeps(s: Seq<char>, i: int)
    requires
        0 <= i < s.len(),
        s[i] != SEPARATOR,
    ensures
        without_separators(s).contains(s[i]),
{
    s.lemma_filter_contains(|c: char| c != SEPARATOR, i);
}

/// Appending a digit never makes the number smaller.
pub proof fn lemma_decimal_push(s: Seq<char>, c: char)
    requires
        is_digit(c),
    ensures
        decimal(s.push(c)) == decimal(s) * 10 + digit_value(c),
        decimal(s.push(c)) >= decimal(s),
{
    assert(s.push(c).drop_last() == s);
}

/// Reads the count that `text` states.
pub fn parse_count(text: &str) -> (count: Option<u32>)
    ensures
        count == count_of(text@),
{
    let mut value: u64 = 0;
    let mut seen: bool = false;
    let mut over: bool = false;
    proof {
        assert(text@.take(0) == Seq::<char>::empty());
        reveal(Seq::filter);
    }
    for c in it: text.chars()
        invariant
            it.seq() == text@,
            all_digits(without_separators(text@.take(it.index()))),
            seen == (without_separators(text@.take(it.index())).len() > 0),
            !over ==> value == decimal(without_separators(text@.take(it.index()))),
            !over ==> value <= COUNT_LIMIT,
            over ==> decimal(without_separators(text@.take(it.index()))) > COUNT_LIMIT,
    {
        let ghost before = text@.take(it.index());
        proof {
            assert(text@.take(it.index() + 1) == before.push(c));
            lemma_without_separators_push(before, c);
        }
        if c == SEPARATOR {
        } else if '0' <= c && c <= '9' {
            proof {
                lemma_decimal_push(without_separators(before), c);
            }
            seen = true;
            if !over {
                let digit: u64 = (c as u32 - '0' as u32) as u64;
                value = value * 10 + digit;
                if value > COUNT_LIMIT as u64 {
                    over = true;
                }
            }
        } else {
            proof {
                lemma_without_separators_keeps(text@, it.index());
            }
            return None;
        }
    }
    proof {
        assert(text@.take(text@.len() as int) == text@);
    }
    if seen && !over {
        Some(value as u32)
    } else {
        None
    }
}

} // verus!
