//! Character-level text operations on the views of `String`s.
use vstd::prelude::*;
use vstd::std_specs::iter::IteratorSpec;
use vstd::utf8::{decode_utf8, valid_utf8};

verus! {

/// True when `pat` occurs in `s` starting at index `i`.
pub open spec fn occurs_at(s: Seq<char>, i: int, pat: Seq<char>) -> bool {
    0 <= i && i + pat.len() <= s.len() && s.subrange(i, i + pat.len()) == pat
}

/// `s` with every occurrence of `pat` removed, the occurrences found from
/// the left without overlapping (the result of `str::replace(pat, "")`).
pub open spec fn remove_all(s: Seq<char>, pat: Seq<char>) -> Seq<char>
    decreases s.len(),
{
    if s.len() == 0 {
        Seq::empty()
    } else if pat.len() > 0 && occurs_at(s, 0, pat) {
        remove_all(s.skip(pat.len() as int), pat)
    } else {
        seq![s[0]] + remove_all(s.skip(1), pat)
    }
}

/// Appends one character to a string.
#[verifier::external_body]
pub(crate) fn push_char(s: &mut String, c: char)
    ensures
        final(s)@ == old(s)@.push(c),
{
    s.push(c);
}

/// The characters of `s`, in order.
pub fn chars_of(s: &str) -> (v: Vec<char>)
    ensures
        v@ == s@,
{
    broadcast use vstd::string::group_string_axioms;
    let mut v: Vec<char> = Vec::new();
    for c in it: s.chars()
        invariant
            it.seq() == s@,
            v@ == s@.take(it.index() as int),
    {
        v.push(c);
    }
    assert(v@ == s@);
    v
}

/// The index of the first occurrence of `pat` in `s` at or after `i`.
pub open spec fn find_from(s: Seq<char>, pat: Seq<char>, i: int) -> Option<int>
    decreases s.len() - i,
{
    if i < 0 || i >= s.len() || i + pat.len() > s.len() {
        None
    } else if occurs_at(s, i, pat) {
        Some(i)
    } else {
        find_from(s, pat, i + 1)
    }
}

/// What follows the first occurrence of `pat` in `s`, or the whole of `s`
/// when `pat` does not occur (the second half of `split_once`, falling
/// back to the whole text).
pub open spec fn after_first(s: Seq<char>, pat: Seq<char>) -> Seq<char> {
    match find_from(s, pat, 0) {
        Some(i) => s.skip(i + pat.len()),
        None => s,
    }
}

/// A string holding the characters of `v` from index `start` on, in order.
pub fn string_from(v: &Vec<char>, start: usize) -> (r: String)
    requires
        start <= v@.len(),
    ensures
        r@ == v@.skip(start as int),
{
    let mut r = String::new();
    let n = v.len();
    let mut i: usize = start;
    while i < n
        invariant
            n == v@.len(),
            start <= i <= n,
            r@ == v@.subrange(start as int, i as int),
        decreases n - i,
    {
        push_char(&mut r, v[i]);
        i += 1;
        assert(v@.subrange(start as int, i as int) == v@.subrange(start as int, i - 1).push(
            v@[i - 1],
        ));
    }
    assert(v@.subrange(start as int, n as int) == v@.skip(start as int));
    r
}

/// Whether `pat` occurs in `s` at index `i`.
fn occurs_at_exec(s: &Vec<char>, i: usize, pat: &Vec<char>) -> (b: bool)
    requires
        i <= s@.len(),
    ensures
        b == occurs_at(s@, i as int, pat@),
{
    if pat.len() > s.len() - i {
        return false;
    }
    let m = pat.len();
    let mut j: usize = 0;
    while j < m
        invariant
            m == pat@.len(),
            i + m <= s.len(),
            j <= m,
            forall|k: int| 0 <= k < j ==> s@[i + k] == pat@[k],
        decreases m - j,
    {
        if s[i + j] != pat[j] {
            assert(s@.subrange(i as int, i + m)[j as int] != pat@[j as int]);
            return false;
        }
        j += 1;
    }
    assert(s@.subrange(i as int, i + m) =~= pat@);
    true
}

/// `text` with every occurrence of `pat` removed, scanning from the left.
pub fn remove_occurrences(text: &str, pat: &str) -> (r: String)
    requires
        pat@.len() > 0,
    ensures
        r@ == remove_all(text@, pat@),
{
    let s = chars_of(text);
    let p = chars_of(pat);
    let mut r = String::new();
    let n = s.len();
    let mut i: usize = 0;
    assert(s@.skip(0) == s@);
    while i < n
        invariant
            n == s@.len(),
            p@.len() > 0,
            i <= n,
            r@ + remove_all(s@.skip(i as int), p@) == remove_all(s@, p@),
        decreases n - i,
    {
        let ghost rest = s@.skip(i as int);
        assert(rest.subrange(0, p@.len() as int) =~= s@.subrange(i as int, i + p@.len()) || i
            + p@.len() > n);
        if occurs_at_exec(&s, i, &p) {
            assert(occurs_at(rest, 0, p@));
            assert(rest.skip(p@.len() as int) =~= s@.skip(i + p@.len()));
            i += p.len();
        } else {
            assert(!occurs_at(rest, 0, p@));
            assert(rest.skip(1) =~= s@.skip(i + 1));
            assert(r@.push(s@[i as int]) + remove_all(s@.skip(i + 1), p@) =~= r@ + (seq![s@[i as int]]
                + remove_all(s@.skip(i + 1), p@)));
            push_char(&mut r, s[i]);
            i += 1;
        }
    }
    assert(s@.skip(n as int) =~= Seq::<char>::empty());
    r
}

/// What follows the first occurrence of `pat` in `text`, or all of `text`
/// when `pat` does not occur in it.
pub fn after_first_occurrence(text: &str, pat: &str) -> (r: String)
    requires
        pat@.len() > 0,
    ensures
        r@ == after_first(text@, pat@),
{
    let s = chars_of(text);
    let p = chars_of(pat);
    let n = s.len();
    let mut i: usize = 0;
    while i < n
        invariant
            n == s@.len(),
            p@.len() > 0,
            i <= n,
            s@ == text@,
            p@ == pat@,
            find_from(s@, p@, 0) == find_from(s@, p@, i as int),
        decreases n - i,
    {
        if occurs_at_exec(&s, i, &p) {
            assert(find_from(s@, p@, i as int) == Some(i as int));
            return string_from(&s, i + p.len());
        }
        assert(find_from(s@, p@, i as int) == find_from(s@, p@, i + 1));
        i += 1;
    }
    assert(s@.skip(0) == s@);
    string_from(&s, 0)
}

/// `String::from_utf8` of std: the bytes decode exactly when they are
/// well-formed UTF-8 (vstd's `valid_utf8`), and then to the characters that
/// vstd's `decode_utf8` reads from them.
#[verifier::external_body]
pub(crate) fn utf8_decode(bytes: Vec<u8>) -> (r: Option<String>)
    ensures
        r is Some <==> valid_utf8(bytes@),
        r matches Some(s) ==> s@ == decode_utf8(bytes@),
{
    String::from_utf8(bytes).ok()
}

/// The characters of a decoded string, or nothing when there is none.
pub open spec fn text_of(r: Option<String>) -> Option<Seq<char>> {
    match r {
        Some(s) => Some(s@),
        None => None,
    }
}

} // verus!
