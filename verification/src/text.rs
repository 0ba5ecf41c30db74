//! Character sequences: searching, cutting, hexadecimal digits and UTF-16.

use vstd::prelude::*;

verus! {

/// What `str::to_uppercase` returns for a string of these characters.
pub uninterp spec fn uppercase(s: Seq<char>) -> Seq<char>;

/// What `str::to_lowercase` returns for a string of these characters.
pub uninterp spec fn lowercase(s: Seq<char>) -> Seq<char>;

/// What `String::from_utf16_lossy` returns for these code units.
pub uninterp spec fn utf16_lossy(units: Seq<u16>) -> Seq<char>;

/// Strings as sequences of characters.
pub open spec fn texts(strings: Seq<String>) -> Seq<Seq<char>> {
    Seq::new(strings.len(), |i: int| strings[i]@)
}

/// Whether `needle` stands in `hay` at position `i`.
pub open spec fn occurs_at(needle: Seq<char>, hay: Seq<char>, i: int) -> bool {
    0 <= i && i + needle.len() <= hay.len() && hay.subrange(i, i + needle.len()) == needle
}

/// Whether `needle` stands somewhere in `hay`.
pub open spec fn occurs(needle: Seq<char>, hay: Seq<char>) -> bool {
    exists|i: int| occurs_at(needle, hay, i)
}

/// The position of the first `c` in `s`, or the length of `s` where there is none.
pub open spec fn first_index_of<A>(s: Seq<A>, c: A) -> int
    decreases s.len(),
{
    if s.len() == 0 {
        0
    } else if s[0] == c {
        0
    } else {
        1 + first_index_of(s.drop_first(), c)
    }
}

/// The part of `s` before its first `c`; all of `s` where there is none.
pub open spec fn before_first(s: Seq<char>, c: char) -> Seq<char> {
    s.subrange(0, first_index_of(s, c))
}

/// The position behind the last `sep` in `s`, or 0 where there is none.
pub open spec fn last_segment_start(s: Seq<char>, sep: char) -> int
    decreases s.len(),
{
    if s.len() == 0 {
        0
    } else if s.last() == sep {
        s.len() as int
    } else {
        last_segment_start(s.drop_last(), sep)
    }
}

/// What is left of `s` behind its last `sep`; all of `s` where there is none.
pub open spec fn last_segment(s: Seq<char>, sep: char) -> Seq<char> {
    s.subrange(last_segment_start(s, sep), s.len() as int)
}

/// The length of `s` without the run of `c` at its end.
pub open spec fn trimmed_len(s: Seq<char>, c: char) -> int
    decreases s.len(),
{
    if s.len() == 0 {
        0
    } else if s.last() != c {
        s.len() as int
    } else {
        trimmed_len(s.drop_last(), c)
    }
}

/// `s` without the run of `c` at its end.
pub open spec fn trim_end(s: Seq<char>, c: char) -> Seq<char> {
    s.subrange(0, trimmed_len(s, c))
}

/// The upper-case hexadecimal digit of the value `d`.
pub open spec fn hex_char(d: int) -> char
    recommends
        0 <= d < 16,
{
    if d < 10 {
        (0x30 + d) as char
    } else {
        (0x41 + d - 10) as char
    }
}

/// The four upper-case hexadecimal digits of `x`, most significant first.
pub open spec fn hex4(x: u16) -> Seq<char> {
    seq![
        hex_char(x as int / 4096),
        hex_char((x as int / 256) % 16),
        hex_char((x as int / 16) % 16),
        hex_char(x as int % 16),
    ]
}

/// The UTF-16 code units of one character.
pub open spec fn utf16_of_char(c: char) -> Seq<u16> {
    let v = c as int;
    if v < 0x10000 {
        seq![v as u16]
    } else {
        seq![(0xD800 + (v - 0x10000) / 1024) as u16, (0xDC00 + (v - 0x10000) % 1024) as u16]
    }
}

/// The UTF-16 code units of a string.
pub open spec fn utf16_units(s: Seq<char>) -> Seq<u16>
    decreases s.len(),
{
    if s.len() == 0 {
        Seq::empty()
    } else {
        utf16_units(s.drop_last()) + utf16_of_char(s.last())
    }
}

/// The first `c` in `s` is where `c` stands and nothing before it is `c`.
pub proof fn lemma_first_index_of<A>(s: Seq<A>, c: A, k: int)
    requires
        0 <= k <= s.len(),
        k < s.len() ==> s[k] == c,
        forall|j: int| 0 <= j < k ==> s[j] != c,
    ensures
        first_index_of(s, c) == k,
    decreases s.len(),
{
    if s.len() > 0 && s[0] != c {
        let t = s.drop_first();
        assert forall|j: int| 0 <= j < k - 1 implies t[j] != c by {
            assert(t[j] == s[j + 1]);
        }
        lemma_first_index_of(t, c, k - 1);
    }
}

/// The last segment starts behind a `sep`, or at 0, and holds no `sep`.
pub proof fn lemma_last_segment_start(s: Seq<char>, sep: char, k: int)
    requires
        0 <= k <= s.len(),
        k > 0 ==> s[k - 1] == sep,
        forall|j: int| k <= j < s.len() ==> s[j] != sep,
    ensures
        last_segment_start(s, sep) == k,
    decreases s.len(),
{
    if s.len() > 0 && s.last() != sep {
        lemma_last_segment_start(s.drop_last(), sep, k);
    }
}

/// The trimmed length is behind a character other than `c`, or 0, and only
/// `c` follows it.
pub proof fn lemma_trimmed_len(s: Seq<char>, c: char, k: int)
    requires
        0 <= k <= s.len(),
        k > 0 ==> s[k - 1] != c,
        forall|j: int| k <= j < s.len() ==> s[j] == c,
    ensures
        trimmed_len(s, c) == k,
    decreases s.len(),
{
    if s.len() > 0 && s.last() == c {
        lemma_trimmed_len(s.drop_last(), c, k);
    }
}

/// Characters below U+10000 take one code unit each, which is their number.
pub proof fn lemma_utf16_units_of_bmp(s: Seq<char>)
    requires
        forall|i: int| 0 <= i < s.len() ==> (s[i] as int) < 0x10000,
    ensures
        utf16_units(s) == Seq::new(s.len(), |i: int| s[i] as u16),
    decreases s.len(),
{
    if s.len() > 0 {
        lemma_utf16_units_of_bmp(s.drop_last());
    }
    assert(utf16_units(s) =~= Seq::new(s.len(), |i: int| s[i] as u16));
}

/// Calls `str::to_uppercase`. Nothing is proved of the call: its result is
/// taken to depend on the characters of `s` alone and is known only under the
/// name `uppercase`.
#[verifier::external_body]
pub(crate) fn to_uppercase(s: &str) -> (r: String)
    ensures
        r@ == uppercase(s@),
{
    s.to_uppercase()
}

/// Calls `str::to_lowercase`. Nothing is proved of the call: its result is
/// taken to depend on the characters of `s` alone and is known only under the
/// name `lowercase`.
#[verifier::external_body]
pub(crate) fn to_lowercase(s: &str) -> (r: String)
    ensures
        r@ == lowercase(s@),
{
    s.to_lowercase()
}

/// Calls `String::from_utf16_lossy`. Nothing is proved of the call: its
/// result is taken to depend on the code units alone and is known only under
/// the name `utf16_lossy`.
#[verifier::external_body]
pub(crate) fn decode_utf16_lossy(units: &[u16]) -> (r: String)
    ensures
        r@ == utf16_lossy(units@),
{
    String::from_utf16_lossy(units)
}

/// The characters of a string.
pub fn chars_of(s: &str) -> (r: Vec<char>)
    ensures
        r@ == s@,
{
    let mut out: Vec<char> = Vec::new();
    for c in it: s.chars()
        invariant
            out@ == it.seq().take(it.index@),
    {
        out.push(c);
    }
    out
}

/// Whether two strings are made of the same characters.
pub fn same_chars(a: &[char], b: &[char]) -> (r: bool)
    ensures
        r == (a@ == b@),
{
    if a.len() != b.len() {
        return false;
    }
    let same = matches_at(a, b, 0);
    proof {
        assert(a@.subrange(0, a@.len() as int) =~= a@);
    }
    same
}

/// Whether `needle` stands in `hay` at position `at`.
pub fn matches_at(hay: &[char], needle: &[char], at: usize) -> (r: bool)
    requires
        at + needle.len() <= hay.len(),
    ensures
        r == occurs_at(needle@, hay@, at as int),
{
    let n: usize = needle.len();
    let mut j: usize = 0;
    while j < n
        invariant
            n == needle.len(),
            at + n <= hay.len(),
            j <= n,
            forall|k: int| 0 <= k < j ==> hay@[at + k] == needle@[k],
        decreases n - j,
    {
        if hay[at + j] != needle[j] {
            proof {
                assert(hay@.subrange(at as int, at + n)[j as int] == hay@[at + j]);
            }
            return false;
        }
        j += 1;
    }
    proof {
        assert(hay@.subrange(at as int, at + n) =~= needle@);
    }
    true
}

/// Whether `needle` stands somewhere in `hay`.
pub fn contains(hay: &[char], needle: &[char]) -> (r: bool)
    ensures
        r == occurs(needle@, hay@),
{
    let h: usize = hay.len();
    let n: usize = needle.len();
    if n > h {
        return false;
    }
    let last: usize = h - n;
    let mut i: usize = 0;
    while i < last
        invariant
            h == hay.len(),
            n == needle.len(),
            last == h - n,
            i <= last,
            forall|k: int| 0 <= k < i ==> !occurs_at(needle@, hay@, k),
        decreases last - i,
    {
        if matches_at(hay, needle, i) {
            return true;
        }
        i += 1;
    }
    matches_at(hay, needle, last)
}

/// The position of the first `c` in `s`, or the length of `s`.
pub fn index_of_first(s: &[char], c: char) -> (r: usize)
    ensures
        r == first_index_of(s@, c),
        r <= s.len(),
{
    let n: usize = s.len();
    let mut i: usize = 0;
    while i < n && s[i] != c
        invariant
            n == s.len(),
            i <= n,
            forall|j: int| 0 <= j < i ==> s@[j] != c,
        decreases n - i,
    {
        i += 1;
    }
    proof {
        lemma_first_index_of(s@, c, i as int);
    }
    i
}

/// The position behind the last `sep` in `s` from `from` on, or `from`.
pub fn start_of_last_segment(s: &[char], from: usize, sep: char) -> (r: usize)
    requires
        from <= s.len(),
    ensures
        from <= r <= s.len(),
        r - from == last_segment_start(s@.subrange(from as int, s.len() as int), sep),
{
    let n: usize = s.len();
    let mut i: usize = n;
    while i > from && s[i - 1] != sep
        invariant
            n == s.len(),
            from <= i <= n,
            forall|j: int| i <= j < n ==> s@[j] != sep,
        decreases i,
    {
        i -= 1;
    }
    proof {
        lemma_last_segment_start(s@.subrange(from as int, n as int), sep, i - from);
    }
    i
}

/// The length of `s` without the run of `c` at its end.
pub fn length_trimmed(s: &[char], c: char) -> (r: usize)
    ensures
        r == trimmed_len(s@, c),
        r <= s.len(),
{
    let mut i: usize = s.len();
    while i > 0 && s[i - 1] == c
        invariant
            i <= s.len(),
            forall|j: int| i <= j < s.len() ==> s@[j] == c,
        decreases i,
    {
        i -= 1;
    }
    proof {
        lemma_trimmed_len(s@, c, i as int);
    }
    i
}

/// The upper-case hexadecimal digit of `d`.
pub fn hex_char_of(d: u8) -> (r: char)
    requires
        d < 16,
    ensures
        r == hex_char(d as int),
{
    if d < 10 {
        (0x30 + d) as char
    } else {
        (0x41 + d - 10) as char
    }
}

/// Appends the four upper-case hexadecimal digits of `x` to `out`.
pub fn push_hex4(out: &mut Vec<char>, x: u16)
    ensures
        final(out)@ == old(out)@ + hex4(x),
{
    out.push(hex_char_of((x / 4096) as u8));
    out.push(hex_char_of(((x / 256) % 16) as u8));
    out.push(hex_char_of(((x / 16) % 16) as u8));
    out.push(hex_char_of((x % 16) as u8));
    assert(out@ =~= old(out)@ + hex4(x));
}

/// The number of a character.
pub fn code_point(c: char) -> (v: u32)
    ensures
        v == c as int,
        v <= 0x10FFFF,
{
    c as u32
}

/// The UTF-16 code units of `s`.
pub fn encode_utf16(s: &[char]) -> (r: Vec<u16>)
    ensures
        r@ == utf16_units(s@),
{
    let n: usize = s.len();
    let mut out: Vec<u16> = Vec::new();
    let mut i: usize = 0;
    while i < n
        invariant
            n == s.len(),
            i <= n,
            out@ == utf16_units(s@.subrange(0, i as int)),
        decreases n - i,
    {
        proof {
            assert(s@.subrange(0, i + 1).drop_last() =~= s@.subrange(0, i as int));
        }
        let v: u32 = code_point(s[i]);
        if v < 0x10000 {
            out.push(v as u16);
        } else {
            let w: u32 = v - 0x10000;
            out.push((0xD800 + w / 1024) as u16);
            out.push((0xDC00 + w % 1024) as u16);
        }
        assert(out@ =~= utf16_units(s@.subrange(0, i as int)) + utf16_of_char(s@[i as int]));
        i += 1;
    }
    assert(s@.subrange(0, n as int) =~= s@);
    out
}

} // verus!
