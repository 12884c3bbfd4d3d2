//! Text helpers: the frame of a label such as `_sip.`, prefixes, and the
//! comparison that ignores the case of ASCII letters.

use vstd::prelude::*;
use vstd::string::*;

verus! {

/// Whether `a` and `b` are the same character, or the two cases of one ASCII letter.
pub open spec fn same_letter(a: char, b: char) -> bool {
    ||| a == b
    ||| ('A' <= a && a <= 'Z' && b as u32 == a as u32 + 32)
    ||| ('A' <= b && b <= 'Z' && a as u32 == b as u32 + 32)
}

/// Equality of two texts up to the case of their ASCII letters.
pub open spec fn eq_ignore_ascii_case(a: Seq<char>, b: Seq<char>) -> bool {
    &&& a.len() == b.len()
    &&& forall|i: int| 0 <= i < a.len() ==> same_letter(#[trigger] a[i], b[i])
}

/// The first position at or after `from` that holds a dot; the length where there is none.
pub open spec fn first_dot(s: Seq<char>, from: int) -> int
    decreases s.len() - from,
{
    if from < 0 || from >= s.len() {
        s.len() as int
    } else if s[from] == '.' {
        from
    } else {
        first_dot(s, from + 1)
    }
}

/// A text of the form `_label.rest`, taken apart at its first dot: `(label, rest)`.
pub open spec fn split_label(s: Seq<char>) -> Option<(Seq<char>, Seq<char>)> {
    if s.len() > 0 && s[0] == '_' && first_dot(s, 1) < s.len() {
        let d = first_dot(s, 1);
        Some((s.subrange(1, d), s.subrange(d + 1, s.len() as int)))
    } else {
        None
    }
}

/// `s` without the prefix `p`, if it starts with it.
pub open spec fn strip_prefix(s: Seq<char>, p: Seq<char>) -> Seq<char> {
    if p.is_prefix_of(s) {
        s.skip(p.len() as int)
    } else {
        s
    }
}

pub proof fn lemma_first_dot_bounds(s: Seq<char>, from: int)
    requires
        0 <= from <= s.len(),
    ensures
        from <= first_dot(s, from) <= s.len(),
        first_dot(s, from) < s.len() ==> s[first_dot(s, from)] == '.',
        forall|j: int| from <= j < first_dot(s, from) ==> s[j] != '.',
    decreases s.len() - from,
{
    if from < s.len() && s[from] != '.' {
        lemma_first_dot_bounds(s, from + 1);
    }
}

/// The first dot of `a + "." + b` after `from` is the dot in the middle, if `a` holds none there.
pub proof fn lemma_first_dot_of_joined(a: Seq<char>, b: Seq<char>, from: int)
    requires
        0 <= from <= a.len(),
        forall|j: int| from <= j < a.len() ==> a[j] != '.',
    ensures
        first_dot(a + seq!['.'] + b, from) == a.len(),
    decreases a.len() - from,
{
    let s = a + seq!['.'] + b;
    if from < a.len() {
        assert(s[from] == a[from]);
        lemma_first_dot_of_joined(a, b, from + 1);
    } else {
        assert(s[from] == '.');
    }
}

/// The position of the first dot of `text` at or after `from`, counted in characters.
pub fn find_dot(text: &str, from: usize) -> (r: usize)
    requires
        from <= text@.len(),
    ensures
        r == first_dot(text@, from as int),
        from <= r <= text@.len(),
{
    let n = text.unicode_len();
    let mut i: usize = from;
    proof {
        lemma_first_dot_bounds(text@, from as int);
    }
    while i < n
        invariant
            from <= i <= n,
            n == text@.len(),
            first_dot(text@, from as int) == first_dot(text@, i as int),
        decreases n - i,
    {
        if text.get_char(i) == '.' {
            return i;
        }
        i += 1;
    }
    i
}

/// Takes `_label.rest` apart at its first dot.
pub fn split_at_label<'a>(text: &'a str) -> (r: Option<(&'a str, &'a str)>)
    ensures
        match r {
            Some((label, rest)) => split_label(text@) == Some((label@, rest@)),
            None => split_label(text@) is None,
        },
{
    let n = text.unicode_len();
    if n == 0 || text.get_char(0) != '_' {
        return None;
    }
    let d = find_dot(text, 1);
    if d >= n {
        return None;
    }
    Some((text.substring_char(1, d), text.substring_char(d + 1, n)))
}

/// `text` without `prefix` where it starts with it, `text` itself where it does not.
pub fn without_prefix(text: &str, prefix: &str) -> (r: String)
    ensures
        r@ == strip_prefix(text@, prefix@),
{
    let n = text.unicode_len();
    let m = prefix.unicode_len();
    if m > n {
        return String::from_str(text);
    }
    let mut i: usize = 0;
    while i < m
        invariant
            i <= m <= n,
            n == text@.len(),
            m == prefix@.len(),
            forall|j: int| 0 <= j < i ==> text@[j] == prefix@[j],
        decreases m - i,
    {
        if text.get_char(i) != prefix.get_char(i) {
            assert(!prefix@.is_prefix_of(text@)) by {
                if prefix@.is_prefix_of(text@) {
                    assert(text@.subrange(0, m as int)[i as int] == prefix@[i as int]);
                }
            }
            return String::from_str(text);
        }
        i += 1;
    }
    assert(prefix@ =~= text@.subrange(0, m as int));
    assert(text@.skip(m as int) =~= text@.subrange(m as int, n as int));
    String::from_str(text.substring_char(m, n))
}

/// Whether `bytes` spell `name`, up to the case of ASCII letters.
pub open spec fn spells(bytes: Seq<u8>, name: Seq<char>) -> bool {
    &&& bytes.len() == name.len()
    &&& forall|i: int| 0 <= i < bytes.len() ==> same_letter(#[trigger] bytes[i] as char, name[i])
}

/// Whether `bytes` spell the ASCII text `name`, up to the case of ASCII letters.
pub fn bytes_spell(bytes: &[u8], name: &str) -> (b: bool)
    requires
        name.is_ascii(),
    ensures
        b == spells(bytes@, name@),
{
    let n = name.unicode_len();
    if bytes.len() != n {
        return false;
    }
    let mut i: usize = 0;
    while i < n
        invariant
            i <= n,
            n == name@.len(),
            n == bytes@.len(),
            name.is_ascii(),
            forall|j: int| 0 <= j < i ==> same_letter(#[trigger] bytes@[j] as char, name@[j]),
        decreases n - i,
    {
        let a = bytes[i];
        let c = name.get_ascii(i);
        assert(c as char == name@[i as int]);
        let same = a == c || (65 <= a && a <= 90 && c == a + 32) || (65 <= c && c <= 90 && a == c
            + 32);
        if !same {
            assert(!same_letter(bytes@[i as int] as char, name@[i as int]));
            return false;
        }
        i += 1;
    }
    true
}

/// Calls `std::str::from_utf8` and says whether it succeeded: it does
/// exactly on bytes that are valid UTF-8.
#[verifier::external_body]
pub(crate) fn is_utf8(bytes: &[u8]) -> (b: bool)
    ensures
        b == vstd::utf8::valid_utf8(bytes@),
{
    std::str::from_utf8(bytes).is_ok()
}

} // verus!
