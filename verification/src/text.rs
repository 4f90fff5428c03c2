use vstd::prelude::*;

verus! {

/// `String::push`: the character is appended to the string's characters.
pub assume_specification[ std::string::String::push ](s: &mut std::string::String, ch: char)
    ensures
        final(s)@ == old(s)@.push(ch),
;

/// Unicode `White_Space` property, the set that `char::is_whitespace` tests.
pub open spec fn is_space(c: char) -> bool {
    ||| ('\u{9}' <= c && c <= '\u{d}')
    ||| c == ' '
    ||| c == '\u{85}'
    ||| c == '\u{a0}'
    ||| c == '\u{1680}'
    ||| ('\u{2000}' <= c && c <= '\u{200a}')
    ||| c == '\u{2028}'
    ||| c == '\u{2029}'
    ||| c == '\u{202f}'
    ||| c == '\u{205f}'
    ||| c == '\u{3000}'
}

/// Unicode general category `Cc`, the set that `char::is_control` tests.
pub open spec fn is_control(c: char) -> bool {
    c <= '\u{1f}' || ('\u{7f}' <= c && c <= '\u{9f}')
}

/// The characters that a trim removes: whitespace, or only `'\n'`.
pub open spec fn is_trimmed(c: char, newlines_only: bool) -> bool {
    if newlines_only {
        c == '\n'
    } else {
        is_space(c)
    }
}

pub open spec fn trim_start_by(s: Seq<char>, newlines_only: bool) -> Seq<char>
    decreases s.len(),
{
    if s.len() > 0 && is_trimmed(s[0], newlines_only) {
        trim_start_by(s.drop_first(), newlines_only)
    } else {
        s
    }
}

pub open spec fn trim_end_by(s: Seq<char>, newlines_only: bool) -> Seq<char>
    decreases s.len(),
{
    if s.len() > 0 && is_trimmed(s.last(), newlines_only) {
        trim_end_by(s.drop_last(), newlines_only)
    } else {
        s
    }
}

/// `str::trim`: leading and trailing whitespace removed.
pub open spec fn trim(s: Seq<char>) -> Seq<char> {
    trim_end_by(trim_start_by(s, false), false)
}

/// `trim_start_matches('\n').trim_end_matches('\n')`.
pub open spec fn trim_newlines(s: Seq<char>) -> Seq<char> {
    trim_end_by(trim_start_by(s, true), true)
}

pub open spec fn starts_with(s: Seq<char>, prefix: Seq<char>) -> bool {
    prefix.len() <= s.len() && s.take(prefix.len() as int) == prefix
}

pub open spec fn occurs_at(s: Seq<char>, needle: Seq<char>, i: int) -> bool {
    0 <= i && i + needle.len() <= s.len() && s.subrange(i, i + needle.len()) == needle
}

/// `str::contains` with a string pattern.
pub open spec fn contains(s: Seq<char>, needle: Seq<char>) -> bool {
    exists|i: int| #[trigger] occurs_at(s, needle, i)
}

pub fn char_is_space(c: char) -> (res: bool)
    ensures
        res == is_space(c),
{
    ('\u{9}' <= c && c <= '\u{d}') || c == ' ' || c == '\u{85}' || c == '\u{a0}' || c
        == '\u{1680}' || ('\u{2000}' <= c && c <= '\u{200a}') || c == '\u{2028}' || c
        == '\u{2029}' || c == '\u{202f}' || c == '\u{205f}' || c == '\u{3000}'
}

pub fn char_is_control(c: char) -> (res: bool)
    ensures
        res == is_control(c),
{
    c <= '\u{1f}' || ('\u{7f}' <= c && c <= '\u{9f}')
}

fn char_is_trimmed(c: char, newlines_only: bool) -> (res: bool)
    ensures
        res == is_trimmed(c, newlines_only),
{
    if newlines_only {
        c == '\n'
    } else {
        char_is_space(c)
    }
}

/// The characters of a string slice, in order.
pub fn chars_of(s: &str) -> (res: Vec<char>)
    ensures
        res@ == s@,
{
    let mut res: Vec<char> = Vec::new();
    for c in it: s.chars()
        invariant
            res@ == it.seq().take(it.index() as int),
    {
        res.push(c);
    }
    res
}

/// Appends `v[lo..hi]` to `out`.
pub fn push_range(out: &mut String, v: &Vec<char>, lo: usize, hi: usize)
    requires
        lo <= hi <= v@.len(),
    ensures
        final(out)@ == old(out)@ + v@.subrange(lo as int, hi as int),
{
    let mut i = lo;
    while i < hi
        invariant
            lo <= i <= hi <= v@.len(),
            out@ == old(out)@ + v@.subrange(lo as int, i as int),
        decreases hi - i,
    {
        out.push(v[i]);
        i += 1;
        assert(v@.subrange(lo as int, i as int) == v@.subrange(lo as int, i - 1).push(v@[i - 1]));
    }
}

/// A string holding the characters `v[lo..hi]`.
pub fn string_of_range(v: &Vec<char>, lo: usize, hi: usize) -> (res: String)
    requires
        lo <= hi <= v@.len(),
    ensures
        res@ == v@.subrange(lo as int, hi as int),
{
    let mut out = String::new();
    push_range(&mut out, v, lo, hi);
    out
}

/// The bounds of `v` after a trim: `v@.subrange(lo, hi)` is what is left.
fn trim_bounds(v: &Vec<char>, newlines_only: bool) -> (res: (usize, usize))
    ensures
        res.0 <= res.1 <= v@.len(),
        v@.subrange(res.0 as int, res.1 as int) == trim_end_by(
            trim_start_by(v@, newlines_only),
            newlines_only,
        ),
{
    let len = v.len();
    let mut lo: usize = 0;
    assert(v@.subrange(0, len as int) == v@);
    while lo < len && char_is_trimmed(v[lo], newlines_only)
        invariant
            lo <= len == v@.len(),
            trim_start_by(v@, newlines_only) == trim_start_by(
                v@.subrange(lo as int, len as int),
                newlines_only,
            ),
        decreases len - lo,
    {
        assert(v@.subrange(lo as int, len as int).drop_first() == v@.subrange(lo + 1, len as int));
        lo += 1;
    }
    let ghost start = v@.subrange(lo as int, len as int);
    assert(trim_start_by(v@, newlines_only) == start);
    let mut hi: usize = len;
    while hi > lo && char_is_trimmed(v[hi - 1], newlines_only)
        invariant
            lo <= hi <= len == v@.len(),
            start == v@.subrange(lo as int, len as int),
            trim_end_by(start, newlines_only) == trim_end_by(
                v@.subrange(lo as int, hi as int),
                newlines_only,
            ),
        decreases hi - lo,
    {
        assert(v@.subrange(lo as int, hi as int).drop_last() == v@.subrange(lo as int, hi - 1));
        hi -= 1;
    }
    (lo, hi)
}

/// `str::trim`, as a new string.
pub fn trim_string(s: &str) -> (res: String)
    ensures
        res@ == trim(s@),
{
    let v = chars_of(s);
    let (lo, hi) = trim_bounds(&v, false);
    string_of_range(&v, lo, hi)
}

/// `trim_start_matches('\n').trim_end_matches('\n')`, as a new string.
pub fn trim_newlines_string(s: &str) -> (res: String)
    ensures
        res@ == trim_newlines(s@),
{
    let v = chars_of(s);
    let (lo, hi) = trim_bounds(&v, true);
    string_of_range(&v, lo, hi)
}

/// Whether two strings hold the same characters.
pub fn str_eq(a: &str, b: &str) -> (res: bool)
    ensures
        res == (a@ == b@),
{
    let va = chars_of(a);
    let vb = chars_of(b);
    if va.len() != vb.len() {
        return false;
    }
    let mut i: usize = 0;
    while i < va.len()
        invariant
            va@ == a@,
            vb@ == b@,
            va@.len() == vb@.len(),
            i <= va@.len(),
            forall|j: int| 0 <= j < i ==> va@[j] == vb@[j],
        decreases va@.len() - i,
    {
        if va[i] != vb[i] {
            return false;
        }
        i += 1;
    }
    assert(va@ == vb@);
    true
}

/// Whether `needle` occurs in `v` at position `i`.
fn occurs_at_exec(v: &Vec<char>, needle: &Vec<char>, i: usize) -> (res: bool)
    ensures
        res == occurs_at(v@, needle@, i as int),
{
    if needle.len() > v.len() || i > v.len() - needle.len() {
        return false;
    }
    let vlen = v.len();
    let mut k: usize = 0;
    while k < needle.len()
        invariant
            vlen == v@.len(),
            i + needle@.len() <= v@.len(),
            k <= needle@.len(),
            forall|j: int| 0 <= j < k ==> v@[i + j] == needle@[j],
        decreases needle@.len() - k,
    {
        if v[i + k] != needle[k] {
            assert(v@.subrange(i as int, i + needle@.len())[k as int] != needle@[k as int]);
            return false;
        }
        k += 1;
    }
    assert(v@.subrange(i as int, i + needle@.len()) == needle@);
    true
}

/// `str::contains` with a string pattern.
pub fn contains_str(s: &str, needle: &str) -> (res: bool)
    ensures
        res == contains(s@, needle@),
{
    let v = chars_of(s);
    let n = chars_of(needle);
    if n.len() > v.len() {
        assert forall|i: int| !occurs_at(s@, needle@, i) by {}
        return false;
    }
    let last = v.len() - n.len();
    let mut i: usize = 0;
    while i <= last
        invariant
            v@ == s@,
            n@ == needle@,
            last == v@.len() - n@.len(),
            forall|j: int| 0 <= j < i ==> !occurs_at(s@, needle@, j),
        decreases last + 1 - i,
    {
        if occurs_at_exec(&v, &n, i) {
            return true;
        }
        if i == last {
            assert forall|j: int| !occurs_at(s@, needle@, j) by {}
            return false;
        }
        i += 1;
    }
    assert forall|j: int| !occurs_at(s@, needle@, j) by {}
    false
}

/// `str::starts_with` with a string pattern.
pub fn starts_with_str(s: &str, prefix: &str) -> (res: bool)
    ensures
        res == starts_with(s@, prefix@),
{
    let v = chars_of(s);
    let p = chars_of(prefix);
    let r = occurs_at_exec(&v, &p, 0);
    assert(v@.subrange(0, p@.len() as int) == v@.take(p@.len() as int));
    r
}

} // verus!
