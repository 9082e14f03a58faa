//! Character-level helpers for `String` values, and the few facts about
//! `std`'s Unicode routines that the rest of the crate relies on.
//!
//! A string is modelled by its view, the `Seq<char>` of its characters.

use vstd::prelude::*;

verus! {

/// Whether `c` has the Unicode `White_Space` property, as `char::is_whitespace` reports it.
pub uninterp spec fn is_white_space(c: char) -> bool;

/// The lowercase form of a string, as `str::to_lowercase` computes it.
pub uninterp spec fn lowercase_of(s: Seq<char>) -> Seq<char>;

/// `char::is_whitespace`: the answer is a fixed property of the character.
pub assume_specification[ char::is_whitespace ](c: char) -> (b: bool)
    ensures
        b == is_white_space(c),
;

/// `String::push`: appends one character to the end of the string.
pub assume_specification[ String::push ](s: &mut String, c: char)
    ensures
        final(s)@ == old(s)@.push(c),
;

/// `str::to_lowercase`: the Unicode lowercase form of `s`, which depends on `s` alone.
#[verifier::external_body]
pub(crate) fn lowercase(s: &str) -> (lowered: String)
    ensures
        lowered@ == lowercase_of(s@),
{
    s.to_lowercase()
}

/// `s` without its leading whitespace.
pub open spec fn trim_start_of(s: Seq<char>) -> Seq<char>
    decreases s.len(),
{
    if s.len() > 0 && is_white_space(s[0]) {
        trim_start_of(s.drop_first())
    } else {
        s
    }
}

/// `s` without its trailing whitespace.
pub open spec fn trim_end_of(s: Seq<char>) -> Seq<char>
    decreases s.len(),
{
    if s.len() > 0 && is_white_space(s.last()) {
        trim_end_of(s.drop_last())
    } else {
        s
    }
}

/// `s` without leading and trailing whitespace.
pub open spec fn trimmed(s: Seq<char>) -> Seq<char> {
    trim_end_of(trim_start_of(s))
}

/// Whether `s` begins with `prefix`.
pub open spec fn has_prefix(s: Seq<char>, prefix: Seq<char>) -> bool {
    prefix.len() <= s.len() && s.take(prefix.len() as int) == prefix
}

/// Whether `s` ends with `suffix`.
pub open spec fn has_suffix(s: Seq<char>, suffix: Seq<char>) -> bool {
    suffix.len() <= s.len() && s.skip(s.len() - suffix.len()) == suffix
}

/// `s` after every leading repetition of `prefix` has been removed.
pub open spec fn without_leading(s: Seq<char>, prefix: Seq<char>) -> Seq<char>
    decreases s.len(),
{
    if prefix.len() > 0 && has_prefix(s, prefix) {
        without_leading(s.skip(prefix.len() as int), prefix)
    } else {
        s
    }
}

/// The characters of `s`, in order.
pub fn chars_of(s: &str) -> (chars: Vec<char>)
    ensures
        chars@ == s@,
{
    let mut chars: Vec<char> = Vec::new();
    for c in it: s.chars()
        invariant
            chars@ == it.seq().take(it.index()),
    {
        chars.push(c);
    }
    chars
}

/// The string made of `chars[from..to]`, in order.
pub(crate) fn string_of_range(chars: &Vec<char>, from: usize, to: usize) -> (s: String)
    requires
        from <= to <= chars.len(),
    ensures
        s@ == chars@.subrange(from as int, to as int),
{
    let mut s = String::new();
    let mut i: usize = from;
    while i < to
        invariant
            from <= i <= to <= chars.len(),
            s@ == chars@.subrange(from as int, i as int),
        decreases to - i,
    {
        s.push(chars[i]);
        i += 1;
    }
    s
}

/// The bounds of `chars` once leading and trailing whitespace is left out.
pub(crate) fn trim_bounds(chars: &Vec<char>) -> (bounds: (usize, usize))
    ensures
        bounds.0 <= bounds.1 <= chars.len(),
        chars@.subrange(bounds.0 as int, bounds.1 as int) == trimmed(chars@),
{
    let n = chars.len();
    let mut start: usize = 0;
    assert(chars@.skip(0) == chars@);
    while start < n && chars[start].is_whitespace()
        invariant
            start <= n == chars.len(),
            trim_start_of(chars@) == trim_start_of(chars@.skip(start as int)),
        decreases n - start,
    {
        assert(chars@.skip(start as int).drop_first() == chars@.skip(start as int + 1));
        start += 1;
    }
    let mut end: usize = n;
    while end > start && chars[end - 1].is_whitespace()
        invariant
            start <= end <= n == chars.len(),
            trimmed(chars@) == trim_end_of(chars@.subrange(start as int, end as int)),
        decreases end,
    {
        assert(chars@.subrange(start as int, end as int).drop_last() == chars@.subrange(
            start as int,
            end as int - 1,
        ));
        end -= 1;
    }
    (start, end)
}

/// `s` without leading and trailing whitespace, as `str::trim` gives it.
pub fn trim(s: &str) -> (t: String)
    ensures
        t@ == trimmed(s@),
{
    let chars = chars_of(s);
    let (start, end) = trim_bounds(&chars);
    string_of_range(&chars, start, end)
}

/// Whether `chars` begins with `prefix` when read from position `at`.
pub(crate) fn has_prefix_at(chars: &Vec<char>, at: usize, prefix: &Vec<char>) -> (found: bool)
    requires
        at <= chars.len(),
    ensures
        found == has_prefix(chars@.skip(at as int), prefix@),
{
    let n = prefix.len();
    if chars.len() - at < n {
        return false;
    }
    let rest = Ghost(chars@.skip(at as int));
    let mut i: usize = 0;
    while i < n
        invariant
            i <= n == prefix.len(),
            at + n <= chars.len(),
            rest@ == chars@.skip(at as int),
            rest@.take(i as int) == prefix@.take(i as int),
        decreases n - i,
    {
        if chars[at + i] != prefix[i] {
            return false;
        }
        i += 1;
    }
    assert(prefix@.take(n as int) == prefix@);
    true
}

/// Whether `chars` ends with `suffix`.
pub(crate) fn ends_with(chars: &Vec<char>, suffix: &Vec<char>) -> (found: bool)
    ensures
        found == has_suffix(chars@, suffix@),
{
    if chars.len() < suffix.len() {
        return false;
    }
    let found = has_prefix_at(chars, chars.len() - suffix.len(), suffix);
    proof {
        let tail = chars@.skip(chars.len() - suffix.len());
        assert(tail.take(suffix.len() as int) == tail);
    }
    found
}

} // verus!
