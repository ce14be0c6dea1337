//! Character-level helpers shared by the parsers and message builders.
//!
//! Strings are reasoned about through their views (`Seq<char>`); byte
//! lengths and byte offsets go through vstd's UTF-8 model (`encode_utf8`).
use vstd::prelude::*;
use vstd::string::StringExecFns;
use vstd::utf8::*;

verus! {

broadcast use vstd::utf8::group_utf8_lib;

/// Appends one character to a `String` (std's `String::push`).
/// Claimed: the new contents are the old contents followed by `c`.
#[verifier::external_body]
pub(crate) fn push_char(s: &mut String, c: char)
    ensures
        final(s)@ == old(s)@.push(c),
{
    s.push(c);
}

/// Appends a string slice to a `String`.
pub(crate) fn push_str(s: &mut String, t: &str)
    ensures
        final(s)@ == old(s)@ + t@,
{
    s.append(t);
}

/// Lower-cases a string (std's `str::to_lowercase`, full Unicode case mapping).
/// Claimed: the result is `lowercase` of the argument, a function of its characters alone.
#[verifier::external_body]
pub(crate) fn to_lowercase(s: &str) -> (res: String)
    ensures
        res@ == lowercase(s@),
{
    s.to_lowercase()
}

/// What `str::to_lowercase` returns for a character sequence.
pub uninterp spec fn lowercase(s: Seq<char>) -> Seq<char>;

/// An owned copy of a string slice.
pub fn owned(s: &str) -> (res: String)
    ensures
        res@ == s@,
{
    s.to_owned()
}

/// The characters of a string slice, in order.
pub fn to_chars(s: &str) -> (v: Vec<char>)
    ensures
        v@ == s@,
{
    let mut v: Vec<char> = Vec::new();
    for c in it: s.chars()
        invariant
            v@ == it.seq().take(it.index() as int),
    {
        v.push(c);
    }
    v
}

/// A `String` holding the characters `v[lo..hi]`.
pub fn string_from_chars(v: &Vec<char>, lo: usize, hi: usize) -> (res: String)
    requires
        lo <= hi <= v.len(),
    ensures
        res@ == v@.subrange(lo as int, hi as int),
{
    let mut res = String::new();
    let mut i = lo;
    while i < hi
        invariant
            lo <= i <= hi <= v.len(),
            res@ == v@.subrange(lo as int, i as int),
        decreases hi - i,
    {
        push_char(&mut res, v[i]);
        assert(v@.subrange(lo as int, i + 1) == v@.subrange(lo as int, i as int).push(v@[i as int]));
        i += 1;
    }
    res
}

/// Unicode `White_Space`, the property that `char::is_whitespace` and `str::trim` use.
pub open spec fn is_space(c: char) -> bool {
    let u = c as u32;
    ||| 0x9 <= u <= 0xD
    ||| u == 0x20
    ||| u == 0x85
    ||| u == 0xA0
    ||| u == 0x1680
    ||| 0x2000 <= u <= 0x200A
    ||| u == 0x2028
    ||| u == 0x2029
    ||| u == 0x202F
    ||| u == 0x205F
    ||| u == 0x3000
}

/// Executable form of `is_space`.
pub fn char_is_space(c: char) -> (b: bool)
    ensures
        b == is_space(c),
{
    let u = c as u32;
    (0x9 <= u && u <= 0xD) || u == 0x20 || u == 0x85 || u == 0xA0 || u == 0x1680 || (0x2000 <= u
        && u <= 0x200A) || u == 0x2028 || u == 0x2029 || u == 0x202F || u == 0x205F || u == 0x3000
}

/// `s` without its leading characters that satisfy `is_space`.
pub open spec fn trim_start(s: Seq<char>) -> Seq<char>
    decreases s.len(),
{
    if s.len() > 0 && is_space(s[0]) {
        trim_start(s.drop_first())
    } else {
        s
    }
}

/// `s` without its trailing characters equal to `c` (`str::trim_end_matches` with a `char`).
pub open spec fn trim_end_char(s: Seq<char>, c: char) -> Seq<char>
    decreases s.len(),
{
    if s.len() > 0 && s.last() == c {
        trim_end_char(s.drop_last(), c)
    } else {
        s
    }
}

/// `s` without its trailing characters that satisfy `is_space`.
pub open spec fn trim_end(s: Seq<char>) -> Seq<char>
    decreases s.len(),
{
    if s.len() > 0 && is_space(s.last()) {
        trim_end(s.drop_last())
    } else {
        s
    }
}

/// What `str::trim` returns: both ends stripped of white space.
pub open spec fn trim(s: Seq<char>) -> Seq<char> {
    trim_end(trim_start(s))
}

/// The number of leading white-space characters of `v[lo..hi]`.
fn skip_space_start(v: &Vec<char>, lo: usize, hi: usize) -> (k: usize)
    requires
        lo <= hi <= v.len(),
    ensures
        lo <= k <= hi,
        trim_start(v@.subrange(lo as int, hi as int)) == v@.subrange(k as int, hi as int),
{
    let mut k = lo;
    while k < hi && char_is_space(v[k])
        invariant
            lo <= k <= hi <= v.len(),
            trim_start(v@.subrange(lo as int, hi as int)) == trim_start(
                v@.subrange(k as int, hi as int),
            ),
        decreases hi - k,
    {
        assert(v@.subrange(k as int, hi as int).drop_first() == v@.subrange(k + 1, hi as int));
        k += 1;
    }
    k
}

/// The end of `v[lo..hi]` once its trailing white space is stripped.
fn skip_space_end(v: &Vec<char>, lo: usize, hi: usize) -> (k: usize)
    requires
        lo <= hi <= v.len(),
    ensures
        lo <= k <= hi,
        trim_end(v@.subrange(lo as int, hi as int)) == v@.subrange(lo as int, k as int),
{
    let mut k = hi;
    while k > lo && char_is_space(v[k - 1])
        invariant
            lo <= k <= hi <= v.len(),
            trim_end(v@.subrange(lo as int, hi as int)) == trim_end(v@.subrange(lo as int, k as int)),
        decreases k - lo,
    {
        assert(v@.subrange(lo as int, k as int).drop_last() == v@.subrange(lo as int, k - 1));
        k -= 1;
    }
    k
}

/// The end of `v[lo..hi]` once its trailing characters equal to `c` are stripped.
fn skip_char_end(v: &Vec<char>, lo: usize, hi: usize, c: char) -> (k: usize)
    requires
        lo <= hi <= v.len(),
    ensures
        lo <= k <= hi,
        trim_end_char(v@.subrange(lo as int, hi as int), c) == v@.subrange(lo as int, k as int),
{
    let mut k = hi;
    while k > lo && v[k - 1] == c
        invariant
            lo <= k <= hi <= v.len(),
            trim_end_char(v@.subrange(lo as int, hi as int), c) == trim_end_char(
                v@.subrange(lo as int, k as int),
                c,
            ),
        decreases k - lo,
    {
        assert(v@.subrange(lo as int, k as int).drop_last() == v@.subrange(lo as int, k - 1));
        k -= 1;
    }
    k
}

/// `str::trim`: the string without leading and trailing white space.
pub fn trim_str(s: &str) -> (res: String)
    ensures
        res@ == trim(s@),
{
    let v = to_chars(s);
    let a = skip_space_start(&v, 0, v.len());
    let b = skip_space_end(&v, a, v.len());
    assert(v@.subrange(0, v.len() as int) == v@);
    string_from_chars(&v, a, b)
}

/// `str::trim` followed by `trim_end_matches(c)` on a character vector.
pub fn trim_then_strip_end(v: &Vec<char>, c: char) -> (res: Vec<char>)
    ensures
        res@ == trim_end_char(trim(v@), c),
{
    let a = skip_space_start(v, 0, v.len());
    let b = skip_space_end(v, a, v.len());
    let e = skip_char_end(v, a, b, c);
    assert(v@.subrange(0, v.len() as int) == v@);
    let mut res: Vec<char> = Vec::new();
    let mut i = a;
    while i < e
        invariant
            a <= i <= e <= v.len(),
            res@ == v@.subrange(a as int, i as int),
        decreases e - i,
    {
        res.push(v[i]);
        assert(v@.subrange(a as int, i + 1) == v@.subrange(a as int, i as int).push(v@[i as int]));
        i += 1;
    }
    res
}

/// `pat` occurs in `s` as a contiguous run of characters.
pub open spec fn has_substring(s: Seq<char>, pat: Seq<char>) -> bool {
    exists|i: int| 0 <= i && i + pat.len() <= s.len() && #[trigger] s.subrange(i, i + pat.len()) == pat
}

/// `str::contains` with a string pattern.
pub fn contains_str(s: &str, pat: &str) -> (b: bool)
    ensures
        b == has_substring(s@, pat@),
{
    let v = to_chars(s);
    let p = to_chars(pat);
    if p.len() > v.len() {
        return false;
    }
    let mut i: usize = 0;
    while i <= v.len() - p.len()
        invariant
            p.len() <= v.len(),
            i <= v.len() - p.len() + 1,
            v@ == s@,
            p@ == pat@,
            forall|j: int| 0 <= j < i ==> #[trigger] v@.subrange(j, j + p@.len()) != p@,
        decreases v.len() - i,
    {
        let mut k: usize = 0;
        let mut same = true;
        while k < p.len()
            invariant
                i + p.len() <= v.len(),
                k <= p.len(),
                same == (forall|m: int| 0 <= m < k ==> v@[i + m] == p@[m]),
            decreases p.len() - k,
        {
            if v[i + k] != p[k] {
                same = false;
            }
            k += 1;
        }
        if same {
            assert(v@.subrange(i as int, i + p@.len()) == p@);
            return true;
        }
        assert(v@.subrange(i as int, i + p@.len()) != p@) by {
            let m = choose|m: int| 0 <= m < p.len() && v@[i + m] != p@[m];
            assert(v@.subrange(i as int, i + p@.len())[m] != p@[m]);
        }
        i += 1;
    }
    false
}

/// The decimal digit character for `d < 10`.
pub open spec fn digit_char(d: nat) -> char {
    (('0' as u32) + d) as char
}

/// The decimal representation of `n`, without sign or leading zeros.
pub open spec fn decimal(n: nat) -> Seq<char>
    decreases n,
{
    if n < 10 {
        seq![digit_char(n)]
    } else {
        decimal(n / 10).push(digit_char(n % 10))
    }
}

/// Writes `n` in decimal.
pub fn decimal_string(n: u64) -> (res: String)
    ensures
        res@ == decimal(n as nat),
    decreases n,
{
    let d = (n % 10) as u32;
    let c = char_from_digit(d);
    if n < 10 {
        let mut s = String::new();
        push_char(&mut s, c);
        s
    } else {
        let mut s = decimal_string(n / 10);
        push_char(&mut s, c);
        s
    }
}

/// The character of a decimal digit.
fn char_from_digit(d: u32) -> (c: char)
    requires
        d < 10,
    ensures
        c == digit_char(d as nat),
{
    let u: u8 = 48u8 + (d as u8);
    u as char
}

/// The characters of the string made of the first `n` bytes of the UTF-8 encoding of `s`.
pub open spec fn byte_prefix(s: Seq<char>, n: int) -> Seq<char> {
    decode_utf8(encode_utf8(s).subrange(0, n))
}

/// The characters of the string made of the bytes of the UTF-8 encoding of `s` from offset `n` on.
pub open spec fn byte_suffix(s: Seq<char>, n: int) -> Seq<char> {
    decode_utf8(encode_utf8(s).subrange(n, encode_utf8(s).len() as int))
}

/// The length in bytes of the UTF-8 encoding of `s` (what `str::len` returns).
pub open spec fn byte_len(s: Seq<char>) -> nat {
    encode_utf8(s).len()
}

/// `&s[..n]`: the first `n` bytes of `s`, which must end on a character boundary.
pub fn prefix_bytes(s: &str, n: usize) -> (res: String)
    requires
        n <= byte_len(s@),
        is_char_boundary(encode_utf8(s@), n as int),
    ensures
        res@ == byte_prefix(s@, n as int),
{
    let (a, _b) = s.split_at(n);
    a.to_owned()
}

/// `&s[n..]`: the bytes of `s` from offset `n`, which must be a character boundary.
pub fn suffix_bytes(s: &str, n: usize) -> (res: String)
    requires
        n <= byte_len(s@),
        is_char_boundary(encode_utf8(s@), n as int),
    ensures
        res@ == byte_suffix(s@, n as int),
{
    let (_a, b) = s.split_at(n);
    b.to_owned()
}

/// `&s[..min(s.len(), n)]`: at most the first `n` bytes, as long texts are cut for display.
pub open spec fn cut_bytes(s: Seq<char>, n: nat) -> Seq<char> {
    if byte_len(s) <= n {
        s
    } else {
        byte_prefix(s, n as int)
    }
}

/// The cut `&s[..min(s.len(), n)]` ends on a character boundary.
pub open spec fn cuttable(s: Seq<char>, n: nat) -> bool {
    byte_len(s) <= n || is_char_boundary(encode_utf8(s), n as int)
}

/// `&s[..s.len().min(n)]` as an owned string.
pub fn cut_to_bytes(s: &str, n: usize) -> (res: String)
    requires
        cuttable(s@, n as nat),
    ensures
        res@ == cut_bytes(s@, n as nat),
{
    if s.as_bytes().len() <= n {
        s.to_owned()
    } else {
        prefix_bytes(s, n)
    }
}

} // verus!

verus! {

/// Whether two strings hold the same characters.
pub fn same_text(a: &str, b: &str) -> (r: bool)
    ensures
        r == (a@ == b@),
{
    let x = to_chars(a);
    let y = to_chars(b);
    if x.len() != y.len() {
        assert(a@.len() != b@.len());
        return false;
    }
    let mut i: usize = 0;
    while i < x.len()
        invariant
            x@ == a@,
            y@ == b@,
            x.len() == y.len(),
            i <= x.len(),
            forall|j: int| 0 <= j < i ==> x@[j] == y@[j],
        decreases x.len() - i,
    {
        if x[i] != y[i] {
            assert(x@[i as int] != y@[i as int]);
            return false;
        }
        i += 1;
    }
    assert(x@ == y@);
    true
}

} // verus!

verus! {

/// `trim_start` keeps a suffix of its argument.
pub proof fn lemma_trim_start_suffix(s: Seq<char>)
    ensures
        trim_start(s).len() <= s.len(),
        trim_start(s) == s.subrange(s.len() - trim_start(s).len(), s.len() as int),
        trim_start(s).len() > 0 ==> !is_space(trim_start(s)[0]),
    decreases s.len(),
{
    if s.len() > 0 && is_space(s[0]) {
        lemma_trim_start_suffix(s.drop_first());
        assert(s.drop_first().subrange(
            s.drop_first().len() - trim_start(s).len(),
            s.drop_first().len() as int,
        ) == s.subrange(s.len() - trim_start(s).len(), s.len() as int));
    } else {
        assert(s.subrange(0, s.len() as int) == s);
    }
}

/// `trim_end` keeps a prefix of its argument.
pub proof fn lemma_trim_end_prefix(s: Seq<char>)
    ensures
        trim_end(s).len() <= s.len(),
        trim_end(s) == s.subrange(0, trim_end(s).len() as int),
    decreases s.len(),
{
    if s.len() > 0 && is_space(s.last()) {
        lemma_trim_end_prefix(s.drop_last());
        assert(s.drop_last().subrange(0, trim_end(s).len() as int) == s.subrange(
            0,
            trim_end(s).len() as int,
        ));
    } else {
        assert(s.subrange(0, s.len() as int) == s);
    }
}

/// `trim_end_char` keeps a prefix of its argument that does not end with the character.
pub proof fn lemma_trim_end_char_prefix(s: Seq<char>, c: char)
    ensures
        trim_end_char(s, c).len() <= s.len(),
        trim_end_char(s, c) == s.subrange(0, trim_end_char(s, c).len() as int),
        trim_end_char(s, c).len() > 0 ==> trim_end_char(s, c).last() != c,
    decreases s.len(),
{
    if s.len() > 0 && s.last() == c {
        lemma_trim_end_char_prefix(s.drop_last(), c);
        assert(s.drop_last().subrange(0, trim_end_char(s, c).len() as int) == s.subrange(
            0,
            trim_end_char(s, c).len() as int,
        ));
    } else {
        assert(s.subrange(0, s.len() as int) == s);
    }
}

} // verus!

verus! {

/// The encoding of a concatenation is the concatenation of the encodings.
pub proof fn lemma_encode_concat(a: Seq<char>, b: Seq<char>)
    ensures
        encode_utf8(a + b) == encode_utf8(a) + encode_utf8(b),
    decreases a.len(),
{
    if a.len() == 0 {
        assert(a + b == b);
    } else {
        lemma_encode_concat(a.drop_first(), b);
        assert((a + b).drop_first() == a.drop_first() + b);
    }
}

/// The string made of the bytes from a character boundary on has exactly those bytes.
pub proof fn lemma_byte_suffix_len(s: Seq<char>, n: int)
    requires
        0 <= n <= byte_len(s),
        is_char_boundary(encode_utf8(s), n),
    ensures
        byte_len(byte_suffix(s, n)) == byte_len(s) - n,
{
    let bytes = encode_utf8(s);
    let tail = bytes.subrange(n, bytes.len() as int);
    valid_utf8_split(bytes, n);
    decode_utf8_encode_utf8(tail);
}

} // verus!

verus! {

/// The decimal representation of a signed number, with `-` before a negative one.
pub open spec fn signed_decimal(n: int) -> Seq<char> {
    if n < 0 {
        "-"@ + decimal((-n) as nat)
    } else {
        decimal(n as nat)
    }
}

/// Writes a signed number in decimal (as `{}` formats an `i64`).
pub fn signed_decimal_string(n: i64) -> (res: String)
    ensures
        res@ == signed_decimal(n as int),
{
    if n < 0 {
        let m: u64 = ((-(n + 1)) as u64) + 1;
        let digits = decimal_string(m);
        let mut s = owned("-");
        push_str(&mut s, digits.as_str());
        s
    } else {
        decimal_string(n as u64)
    }
}

} // verus!
