//! Character-level helpers shared by the parsers: strings are handled as
//! sequences of `char`, which is also how contracts speak of them.

use vstd::prelude::*;
use vstd::std_specs::iter::IteratorSpec;

verus! {

/// `String::push` of the standard library: the character is appended and
/// nothing else changes.
pub assume_specification[ String::push ](s: &mut String, c: char)
    ensures
        final(s)@ == old(s)@.push(c),
;

/// The characters of `s`, in order.
pub fn chars_of(s: &str) -> (v: Vec<char>)
    ensures
        v@ == s@,
{
    let mut v: Vec<char> = Vec::new();
    for c in it: s.chars()
        invariant
            v@ == it.seq().take(it.index() as int),
            it.seq() == s@,
    {
        v.push(c);
    }
    v
}

/// Appends the characters of `chars` from `start` up to `end` to `out`.
pub fn push_chars(out: &mut String, chars: &Vec<char>, start: usize, end: usize)
    requires
        start <= end <= chars.len(),
    ensures
        final(out)@ == old(out)@ + chars@.subrange(start as int, end as int),
{
    let mut i: usize = start;
    while i < end
        invariant
            start <= i <= end <= chars.len(),
            out@ == old(out)@ + chars@.subrange(start as int, i as int),
        decreases end - i,
    {
        out.push(chars[i]);
        i += 1;
        assert(chars@.subrange(start as int, i as int) =~= chars@.subrange(
            start as int,
            i - 1,
        ).push(chars@[i - 1]));
    }
}

/// The string made of the characters of `chars` from `start` up to `end`.
pub fn string_of(chars: &Vec<char>, start: usize, end: usize) -> (s: String)
    requires
        start <= end <= chars.len(),
    ensures
        s@ == chars@.subrange(start as int, end as int),
{
    let mut s = String::new();
    push_chars(&mut s, chars, start, end);
    s
}

/// Whether `c` has the Unicode property White_Space.
pub open spec fn is_whitespace(c: char) -> bool {
    let u = c as u32;
    ||| 0x09 <= u <= 0x0D
    ||| u == 0x20
    ||| u == 0x85
    ||| u == 0xA0
    ||| u == 0x1680
    ||| 0x2000 <= u <= 0x200A
    ||| u == 0x2028
    ||| u == 0x2029
    ||| u == 0x202F
    ||| u == 0x205F
    ||| u == 0x3000
}

/// Executable form of [`is_whitespace`].
pub fn is_whitespace_char(c: char) -> (b: bool)
    ensures
        b == is_whitespace(c),
{
    let u: u32 = c as u32;
    (0x09 <= u && u <= 0x0D) || u == 0x20 || u == 0x85 || u == 0xA0 || u == 0x1680 || (0x2000 <= u
        && u <= 0x200A) || u == 0x2028 || u == 0x2029 || u == 0x202F || u == 0x205F || u == 0x3000
}

/// `s` without its leading whitespace.
pub open spec fn trim_start(s: Seq<char>) -> Seq<char>
    decreases s.len(),
{
    if s.len() > 0 && is_whitespace(s.first()) {
        trim_start(s.drop_first())
    } else {
        s
    }
}

/// `s` without its trailing whitespace.
pub open spec fn trim_end(s: Seq<char>) -> Seq<char>
    decreases s.len(),
{
    if s.len() > 0 && is_whitespace(s.last()) {
        trim_end(s.drop_last())
    } else {
        s
    }
}

/// `s` without the whitespace on either side.
pub open spec fn trim(s: Seq<char>) -> Seq<char> {
    trim_end(trim_start(s))
}

/// The bounds of the part of `chars` that is left when the whitespace on
/// either side is taken away.
pub fn trim_bounds(chars: &Vec<char>) -> (r: (usize, usize))
    ensures
        r.0 <= r.1 <= chars.len(),
        chars@.subrange(r.0 as int, r.1 as int) == trim(chars@),
{
    let n: usize = chars.len();
    let mut lo: usize = 0;
    assert(chars@.subrange(0, n as int) =~= chars@);
    while lo < n && is_whitespace_char(chars[lo])
        invariant
            lo <= n == chars.len(),
            trim_start(chars@.subrange(lo as int, n as int)) == trim_start(chars@),
        decreases n - lo,
    {
        assert(chars@.subrange(lo as int, n as int).drop_first() =~= chars@.subrange(
            lo + 1,
            n as int,
        ));
        lo += 1;
    }
    let mut hi: usize = n;
    while lo < hi && is_whitespace_char(chars[hi - 1])
        invariant
            lo <= hi <= n == chars.len(),
            trim_end(chars@.subrange(lo as int, hi as int)) == trim(chars@),
        decreases hi - lo,
    {
        assert(chars@.subrange(lo as int, hi as int).drop_last() =~= chars@.subrange(
            lo as int,
            hi - 1,
        ));
        hi -= 1;
    }
    (lo, hi)
}

/// Whether the characters of `chars` from `at` on begin with `prefix`.
pub fn has_prefix_at(chars: &Vec<char>, at: usize, prefix: &Vec<char>) -> (b: bool)
    requires
        at <= chars.len(),
    ensures
        b == prefix@.is_prefix_of(chars@.subrange(at as int, chars.len() as int)),
{
    let n: usize = prefix.len();
    if chars.len() - at < n {
        return false;
    }
    let ghost rest = chars@.subrange(at as int, chars.len() as int);
    let mut i: usize = 0;
    while i < n
        invariant
            i <= n == prefix.len(),
            at + n <= chars.len(),
            rest == chars@.subrange(at as int, chars.len() as int),
            forall|j: int| 0 <= j < i ==> prefix@[j] == rest[j],
        decreases n - i,
    {
        if chars[at + i] != prefix[i] {
            assert(rest[i as int] != prefix@[i as int]);
            return false;
        }
        i += 1;
    }
    assert(rest.subrange(0, n as int) =~= prefix@);
    true
}

} // verus!
