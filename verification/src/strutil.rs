//! Verified string helpers: prefix and suffix tests, ASCII case folding,
//! and filename-extension extraction, all specified over character
//! sequences.

use vstd::prelude::*;
use vstd::string::StrSliceExecFns;

verus! {

/// ASCII lower-casing of one character; characters outside `'A'..='Z'`
/// are unchanged.
pub open spec fn lower_char(c: char) -> char {
    if 'A' <= c && c <= 'Z' {
        (((c as u8) | 0x20u8) as char)
    } else {
        c
    }
}

/// Two character sequences are equal up to ASCII case.
pub open spec fn eq_ignore_ascii_case_seq(a: Seq<char>, b: Seq<char>) -> bool {
    &&& a.len() == b.len()
    &&& forall|i: int| 0 <= i < a.len() ==> lower_char(a[i]) == lower_char(b[i])
}

/// ASCII lower-casing of one character.
pub fn lower_char_exec(c: char) -> (r: char)
    ensures
        r == lower_char(c),
{
    if 'A' <= c && c <= 'Z' {
        ((c as u8) | 0x20u8) as char
    } else {
        c
    }
}

/// Whether `prefix` starts `s`, compared character by character.
pub fn str_starts_with(s: &str, prefix: &str) -> (r: bool)
    ensures
        r == prefix@.is_prefix_of(s@),
{
    let n = prefix.unicode_len();
    if n > s.unicode_len() {
        return false;
    }
    let mut i: usize = 0;
    while i < n
        invariant
            0 <= i <= n,
            n == prefix@.len(),
            n <= s@.len(),
            forall|j: int| 0 <= j < i ==> s@[j] == prefix@[j],
        decreases n - i,
    {
        if s.get_char(i) != prefix.get_char(i) {
            assert(!prefix@.is_prefix_of(s@)) by {
                assert(s@.subrange(0, n as int)[i as int] == s@[i as int]);
            }
            return false;
        }
        i += 1;
    }
    assert(prefix@ =~= s@.subrange(0, n as int));
    true
}

/// Whether `suffix` ends `s`, compared character by character.
pub fn str_ends_with(s: &str, suffix: &str) -> (r: bool)
    ensures
        r == suffix@.is_suffix_of(s@),
{
    let n = suffix.unicode_len();
    let len = s.unicode_len();
    if n > len {
        return false;
    }
    let start = len - n;
    let mut i: usize = 0;
    while i < n
        invariant
            0 <= i <= n,
            n == suffix@.len(),
            len == s@.len(),
            n <= len,
            start == len - n,
            forall|j: int| 0 <= j < i ==> s@[start + j] == suffix@[j],
        decreases n - i,
    {
        if s.get_char(start + i) != suffix.get_char(i) {
            assert(!suffix@.is_suffix_of(s@)) by {
                assert(s@.subrange(start as int, len as int)[i as int] == s@[start + i]);
            }
            return false;
        }
        i += 1;
    }
    assert(suffix@ =~= s@.subrange(start as int, len as int));
    true
}

/// Whether two strings match up to ASCII case.
pub fn str_eq_ignore_ascii_case(a: &str, b: &str) -> (r: bool)
    ensures
        r == eq_ignore_ascii_case_seq(a@, b@),
{
    let n = a.unicode_len();
    if n != b.unicode_len() {
        return false;
    }
    let mut i: usize = 0;
    while i < n
        invariant
            0 <= i <= n,
            n == a@.len(),
            n == b@.len(),
            forall|j: int| 0 <= j < i ==> lower_char(a@[j]) == lower_char(b@[j]),
        decreases n - i,
    {
        let ca = lower_char_exec(a.get_char(i));
        let cb = lower_char_exec(b.get_char(i));
        if ca != cb {
            return false;
        }
        i += 1;
    }
    true
}

/// The position of the last occurrence of `c` in `s`, if any.
pub open spec fn last_pos_of(s: Seq<char>, c: char) -> Option<int>
    decreases s.len(),
{
    if s.len() == 0 {
        None
    } else if s[s.len() - 1] == c {
        Some(s.len() - 1)
    } else {
        last_pos_of(s.drop_last(), c)
    }
}

/// `last_pos_of` returns an in-range position holding `c`, with no later
/// occurrence; `None` means `c` does not occur at all.
pub proof fn lemma_last_pos_of(s: Seq<char>, c: char)
    ensures
        match last_pos_of(s, c) {
            Some(p) => 0 <= p < s.len() && s[p] == c && (forall|j: int|
                p < j < s.len() ==> s[j] != c),
            None => forall|j: int| 0 <= j < s.len() ==> s[j] != c,
        },
    decreases s.len(),
{
    if s.len() > 0 && s[s.len() - 1] != c {
        lemma_last_pos_of(s.drop_last(), c);
        assert forall|j: int| 0 <= j < s.len() - 1 implies s.drop_last()[j] == s[j] by {}
    }
}

/// Scan `s` from the end for the last occurrence of `c`.
pub fn find_last_pos(s: &str, c: char) -> (r: Option<usize>)
    ensures
        match r {
            Some(p) => last_pos_of(s@, c) == Some(p as int),
            None => last_pos_of(s@, c) is None,
        },
{
    let len = s.unicode_len();
    assert(s@.subrange(0, len as int) =~= s@);
    let mut i: usize = len;
    while i > 0
        invariant
            0 <= i <= len,
            len == s@.len(),
            last_pos_of(s@, c) == last_pos_of(s@.subrange(0, i as int), c),
        decreases i,
    {
        let prev = i - 1;
        let ch = s.get_char(prev);
        if ch == c {
            assert(last_pos_of(s@.subrange(0, i as int), c) == Some(prev as int)) by {
                assert(s@.subrange(0, i as int)[i - 1] == s@[prev as int]);
            }
            return Some(prev);
        }
        assert(s@.subrange(0, i as int).drop_last() =~= s@.subrange(0, prev as int));
        i = prev;
    }
    assert(s@.subrange(0, 0) =~= Seq::<char>::empty());
    None
}

/// Relies on std's String::push, which appends exactly one character.
#[verifier::external_body]
pub fn string_push(s: &mut String, c: char)
    ensures
        final(s)@ == old(s)@.push(c),
{
    s.push(c);
}

/// The characters of `s` from position `from` to the end, as an owned
/// string.
pub fn str_suffix_from(s: &str, from: usize) -> (r: String)
    requires
        from <= s@.len(),
    ensures
        r@ == s@.skip(from as int),
{
    let len = s.unicode_len();
    let sub = s.substring_char(from, len);
    let r = sub.to_owned();
    assert(r@ =~= s@.skip(from as int));
    r
}

} // verus!
