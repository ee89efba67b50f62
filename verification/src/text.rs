//! Verified character-level text utilities shared by the rest of the crate.

use vstd::prelude::*;

verus! {

/// Relies on std's `String::push`: appends the given char to the end of the
/// string.
#[verifier::external_body]
pub(crate) fn push_char(s: &mut String, c: char)
    ensures
        final(s)@ == old(s)@.push(c),
{
    s.push(c);
}

/// Whether `pre` is a prefix of `hay`.
pub open spec fn spec_has_prefix(hay: Seq<char>, pre: Seq<char>) -> bool {
    pre.len() <= hay.len() && hay.subrange(0, pre.len() as int) == pre
}

pub fn has_prefix(hay: &str, pre: &str) -> (r: bool)
    ensures
        r == spec_has_prefix(hay@, pre@),
{
    let hay_len = hay.unicode_len();
    let pre_len = pre.unicode_len();
    if pre_len > hay_len {
        assert(!spec_has_prefix(hay@, pre@));
        return false;
    }
    let mut i: usize = 0;
    while i < pre_len
        invariant
            i <= pre_len <= hay_len,
            pre_len == pre@.len(),
            hay_len == hay@.len(),
            forall|j: int| 0 <= j < i ==> hay@[j] == pre@[j],
        decreases pre_len - i,
    {
        if hay.get_char(i) != pre.get_char(i) {
            assert(hay@.subrange(0, pre@.len() as int)[i as int] != pre@[i as int]);
            return false;
        }
        i += 1;
    }
    assert(hay@.subrange(0, pre@.len() as int) =~= pre@);
    true
}

pub fn str_eq(a: &str, b: &str) -> (r: bool)
    ensures
        r == (a@ == b@),
{
    let a_len = a.unicode_len();
    let b_len = b.unicode_len();
    if a_len != b_len {
        return false;
    }
    let r = has_prefix(a, b);
    proof {
        if r {
            assert(a@.subrange(0, b@.len() as int) =~= a@);
        } else if a@ == b@ {
            assert(a@.subrange(0, b@.len() as int) =~= b@);
        }
    }
    r
}

/// The remainder of `hay` after the prefix `pre`, when `pre` is a prefix.
pub fn strip_prefix(hay: &str, pre: &str) -> (r: Option<String>)
    ensures
        match r {
            Some(rest) => spec_has_prefix(hay@, pre@) && hay@ == pre@ + rest@,
            None => !spec_has_prefix(hay@, pre@),
        },
{
    if !has_prefix(hay, pre) {
        return None;
    }
    let hay_len = hay.unicode_len();
    let pre_len = pre.unicode_len();
    let rest = hay.substring_char(pre_len, hay_len);
    assert(hay@ =~= pre@ + rest@);
    Some(rest.to_owned())
}

/// Whether `needle` occurs in `hay` starting at some position.
pub open spec fn spec_contains_at(hay: Seq<char>, needle: Seq<char>, i: int) -> bool {
    0 <= i && i + needle.len() <= hay.len() && hay.subrange(i, i + needle.len()) == needle
}

pub open spec fn spec_contains(hay: Seq<char>, needle: Seq<char>) -> bool {
    exists|i: int| spec_contains_at(hay, needle, i)
}

pub fn contains_sub(hay: &str, needle: &str) -> (r: bool)
    ensures
        r == spec_contains(hay@, needle@),
{
    let hay_len = hay.unicode_len();
    let needle_len = needle.unicode_len();
    if needle_len > hay_len {
        assert(forall|i: int| !spec_contains_at(hay@, needle@, i));
        return false;
    }
    let last = hay_len - needle_len;
    let mut i: usize = 0;
    while i <= last
        invariant
            needle_len <= hay_len,
            last == hay_len - needle_len,
            hay_len == hay@.len(),
            needle_len == needle@.len(),
            i <= last + 1,
            forall|j: int| 0 <= j < i ==> !spec_contains_at(hay@, needle@, j),
        decreases last + 1 - i,
    {
        let mut k: usize = 0;
        let mut matched = true;
        while k < needle_len
            invariant
                i + needle_len <= hay_len,
                hay_len == hay@.len(),
                needle_len == needle@.len(),
                k <= needle_len,
                needle_len == 0 ==> matched,
                matched ==> forall|j: int| 0 <= j < k ==> hay@[i + j] == needle@[j],
                !matched ==> !spec_contains_at(hay@, needle@, i as int),
            decreases needle_len - k,
        {
            if matched {
                if hay.get_char(i + k) != needle.get_char(k) {
                    assert(hay@.subrange(i as int, i + needle@.len())[k as int] != needle@[k as int]);
                    matched = false;
                }
            }
            k += 1;
        }
        if matched {
            assert(hay@.subrange(i as int, i + needle@.len()) =~= needle@);
            assert(spec_contains_at(hay@, needle@, i as int));
            return true;
        }
        i += 1;
    }
    assert forall|j: int| !spec_contains_at(hay@, needle@, j) by {
        if 0 <= j <= hay@.len() - needle@.len() {
            assert(!spec_contains_at(hay@, needle@, j));
        }
    }
    false
}

/// The characters that Unicode (and therefore `str::trim`) counts as white
/// space.
pub open spec fn spec_is_space(c: char) -> bool {
    c == ' ' || c == '\t' || c == '\n' || c == '\r' || c == '\u{000B}' || c == '\u{000C}'
        || c == '\u{0085}' || c == '\u{00A0}' || c == '\u{1680}' || ('\u{2000}' <= c
        && c <= '\u{200A}') || c == '\u{2028}' || c == '\u{2029}' || c == '\u{202F}'
        || c == '\u{205F}' || c == '\u{3000}'
}

pub fn is_space(c: char) -> (r: bool)
    ensures
        r == spec_is_space(c),
{
    c == ' ' || c == '\t' || c == '\n' || c == '\r' || c == '\u{000B}' || c == '\u{000C}'
        || c == '\u{0085}' || c == '\u{00A0}' || c == '\u{1680}' || ('\u{2000}' <= c
        && c <= '\u{200A}') || c == '\u{2028}' || c == '\u{2029}' || c == '\u{202F}'
        || c == '\u{205F}' || c == '\u{3000}'
}

/// The trimmed form of a string: the longest white-space prefix and suffix
/// removed.
pub open spec fn spec_trim(s: Seq<char>) -> Seq<char> {
    let start = spec_trim_start(s);
    let end = spec_trim_end(s);
    if start <= end {
        s.subrange(start, end)
    } else {
        Seq::empty()
    }
}

/// The first index of `s` holding a non-space character (or the length).
pub open spec fn spec_trim_start(s: Seq<char>) -> int
    decreases s.len(),
{
    if s.len() == 0 {
        0
    } else if spec_is_space(s[0]) {
        1 + spec_trim_start(s.drop_first())
    } else {
        0
    }
}

/// One past the last index of `s` holding a non-space character (or zero).
pub open spec fn spec_trim_end(s: Seq<char>) -> int
    decreases s.len(),
{
    if s.len() == 0 {
        0
    } else if spec_is_space(s[s.len() - 1]) {
        spec_trim_end(s.drop_last())
    } else {
        s.len() as int
    }
}

proof fn lemma_trim_start_bounds(s: Seq<char>)
    ensures
        0 <= spec_trim_start(s) <= s.len(),
        forall|j: int| 0 <= j < spec_trim_start(s) ==> spec_is_space(s[j]),
        spec_trim_start(s) < s.len() ==> !spec_is_space(s[spec_trim_start(s)]),
    decreases s.len(),
{
    if s.len() > 0 && spec_is_space(s[0]) {
        lemma_trim_start_bounds(s.drop_first());
        assert forall|j: int| 0 <= j < spec_trim_start(s) implies spec_is_space(s[j]) by {
            if j > 0 {
                assert(spec_is_space(s.drop_first()[j - 1]));
            }
        }
    }
}

proof fn lemma_trim_end_bounds(s: Seq<char>)
    ensures
        0 <= spec_trim_end(s) <= s.len(),
        forall|j: int| spec_trim_end(s) <= j < s.len() ==> spec_is_space(s[j]),
        spec_trim_end(s) > 0 ==> !spec_is_space(s[spec_trim_end(s) - 1]),
    decreases s.len(),
{
    if s.len() > 0 && spec_is_space(s[s.len() - 1]) {
        lemma_trim_end_bounds(s.drop_last());
        assert forall|j: int| spec_trim_end(s) <= j < s.len() implies spec_is_space(s[j]) by {
            if j < s.len() - 1 {
                assert(spec_is_space(s.drop_last()[j]));
            }
        }
    }
}

proof fn lemma_trim_start_step(s: Seq<char>, i: int)
    requires
        0 <= i < s.len(),
        forall|j: int| 0 <= j < i ==> spec_is_space(s[j]),
        !spec_is_space(s[i]),
    ensures
        spec_trim_start(s) == i,
{
    lemma_trim_start_bounds(s);
    if spec_trim_start(s) < i {
        assert(spec_is_space(s[spec_trim_start(s)]));
    }
}

proof fn lemma_trim_end_step(s: Seq<char>, i: int)
    requires
        0 <= i < s.len(),
        forall|j: int| i < j < s.len() ==> spec_is_space(s[j]),
        !spec_is_space(s[i]),
    ensures
        spec_trim_end(s) == i + 1,
{
    lemma_trim_end_bounds(s);
    if spec_trim_end(s) > i + 1 {
        assert(spec_is_space(s[spec_trim_end(s) - 1]));
    }
}

pub fn trim(s: &str) -> (r: String)
    ensures
        r@ == spec_trim(s@),
{
    let len = s.unicode_len();
    let mut start: usize = 0;
    while start < len && is_space(s.get_char(start))
        invariant
            start <= len,
            len == s@.len(),
            forall|j: int| 0 <= j < start ==> spec_is_space(s@[j]),
        decreases len - start,
    {
        start += 1;
    }
    if start == len {
        proof {
            lemma_trim_start_bounds(s@);
            lemma_trim_end_bounds(s@);
            if spec_trim_start(s@) < len {
                assert(spec_is_space(s@[spec_trim_start(s@)]));
            }
            assert(spec_trim_end(s@) <= spec_trim_start(s@));
        }
        return String::new();
    }
    proof {
        lemma_trim_start_step(s@, start as int);
    }
    let mut end: usize = len;
    while end > start + 1 && is_space(s.get_char(end - 1))
        invariant
            start < end <= len,
            len == s@.len(),
            forall|j: int| end <= j < len ==> spec_is_space(s@[j]),
        decreases end,
    {
        end -= 1;
    }
    // end > start, and either end == start + 1 or s[end - 1] is not space.
    // Since s[start] is not space, in the first case s[end - 1] == s[start].
    proof {
        lemma_trim_end_step(s@, end - 1);
    }
    let r = s.substring_char(start, end);
    r.to_owned()
}

/// The decimal digit character of a value below ten.
pub open spec fn spec_digit(d: int) -> char {
    if d == 0 {
        '0'
    } else if d == 1 {
        '1'
    } else if d == 2 {
        '2'
    } else if d == 3 {
        '3'
    } else if d == 4 {
        '4'
    } else if d == 5 {
        '5'
    } else if d == 6 {
        '6'
    } else if d == 7 {
        '7'
    } else if d == 8 {
        '8'
    } else {
        '9'
    }
}

/// The usual decimal rendering of a natural number, no leading zeros.
pub open spec fn spec_dec(n: nat) -> Seq<char>
    decreases n,
{
    if n < 10 {
        seq![spec_digit(n as int)]
    } else {
        spec_dec(n / 10) + seq![spec_digit((n % 10) as int)]
    }
}

fn digit_char(d: u64) -> (r: char)
    requires
        d < 10,
    ensures
        r == spec_digit(d as int),
{
    if d == 0 {
        '0'
    } else if d == 1 {
        '1'
    } else if d == 2 {
        '2'
    } else if d == 3 {
        '3'
    } else if d == 4 {
        '4'
    } else if d == 5 {
        '5'
    } else if d == 6 {
        '6'
    } else if d == 7 {
        '7'
    } else if d == 8 {
        '8'
    } else {
        '9'
    }
}

pub fn u64_to_dec(n: u64) -> (r: String)
    ensures
        r@ == spec_dec(n as nat),
    decreases n,
{
    if n < 10 {
        let mut s = String::new();
        push_char(&mut s, digit_char(n));
        assert(s@ =~= spec_dec(n as nat));
        s
    } else {
        let mut s = u64_to_dec(n / 10);
        push_char(&mut s, digit_char(n % 10));
        assert(s@ =~= spec_dec(n as nat));
        s
    }
}

} // verus!
