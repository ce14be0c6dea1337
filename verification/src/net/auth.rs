//! The Discord login callback: where the browser is sent, and how the token
//! is read back from the request that the local listener receives.
use vstd::prelude::*;

use vstd::utf8::encode_utf8;
use crate::text::{char_is_space, is_space, owned, push_char, push_str, string_from_chars, to_chars};

verus! {

/// The local port on which the login callback is awaited.
pub const CALLBACK_PORT: u16 = 19283;

/// How long the login waits for the browser callback, in seconds.
pub const OAUTH_TIMEOUT_SECS: u64 = 120;

/// The page that starts the Discord login and names the local callback.
pub open spec fn login_url_spec(server_url: Seq<char>) -> Seq<char> {
    server_url + "/auth/discord/login?worker_callback=http://127.0.0.1:19283/"@
}

/// The URL opened in the browser to log in against `server_url`.
pub fn login_url(server_url: &str) -> (res: String)
    ensures
        res@ == login_url_spec(server_url@),
{
    let mut res = owned(server_url);
    push_str(&mut res, "/auth/discord/login?worker_callback=http://127.0.0.1:19283/");
    res
}

// ---------------------------------------------------------------------------
// Percent decoding
// ---------------------------------------------------------------------------
/// The value of an ASCII hexadecimal digit (`char::to_digit(16)` on a byte).
pub open spec fn hex_value(b: u8) -> Option<u32> {
    if 48 <= b <= 57 {
        Some((b - 48) as u32)
    } else if 97 <= b <= 102 {
        Some((b - 87) as u32)
    } else if 65 <= b <= 70 {
        Some((b - 55) as u32)
    } else {
        None
    }
}

/// The character that a byte stands for when pushed as `b as char` (Latin-1).
pub open spec fn byte_char(b: u8) -> char {
    (b as u32) as char
}

/// Percent-decoding of a byte string, as the worker does it.
///
/// `%` takes the two bytes after it (or what is left of them); when both are
/// hex digits the byte they spell is emitted, otherwise nothing is.  With
/// `plus_as_space`, `+` stands for a space.  Every other byte is emitted as the
/// character with the same code.
pub open spec fn percent_decode(b: Seq<u8>, plus_as_space: bool) -> Seq<char>
    decreases b.len(),
{
    if b.len() == 0 {
        seq![]
    } else if b[0] == 37 {
        let step: int = if b.len() >= 3 {
            3
        } else {
            b.len() as int
        };
        let rest = percent_decode(b.subrange(step, b.len() as int), plus_as_space);
        if b.len() >= 3 && hex_value(b[1]) is Some && hex_value(b[2]) is Some {
            seq![byte_char((hex_value(b[1])->0 * 16 + hex_value(b[2])->0) as u8)] + rest
        } else {
            rest
        }
    } else if plus_as_space && b[0] == 43 {
        seq![' '] + percent_decode(b.subrange(1, b.len() as int), plus_as_space)
    } else {
        seq![byte_char(b[0])] + percent_decode(b.subrange(1, b.len() as int), plus_as_space)
    }
}

fn hex_digit(b: u8) -> (r: Option<u32>)
    ensures
        r == hex_value(b),
{
    if 48 <= b && b <= 57 {
        Some((b - 48) as u32)
    } else if 97 <= b && b <= 102 {
        Some((b - 87) as u32)
    } else if 65 <= b && b <= 70 {
        Some((b - 55) as u32)
    } else {
        None
    }
}

fn char_of_byte(b: u8) -> (c: char)
    ensures
        c == byte_char(b),
{
    b as char
}

/// Percent-decodes the UTF-8 bytes of `s`.
pub(crate) fn percent_decode_str(s: &str, plus_as_space: bool) -> (res: String)
    ensures
        res@ == percent_decode(encode_utf8(s@), plus_as_space),
{
    let bytes = s.as_bytes();
    let n = bytes.len();
    let ghost b = bytes@;
    let mut res = String::new();
    let mut i: usize = 0;
    assert(b.subrange(0, n as int) == b);
    assert(res@ + percent_decode(b, plus_as_space) == percent_decode(b, plus_as_space));
    while i < n
        invariant
            n == b.len(),
            b == bytes@,
            b == encode_utf8(s@),
            i <= n,
            res@ + percent_decode(b.subrange(i as int, n as int), plus_as_space) == percent_decode(
                b,
                plus_as_space,
            ),
        decreases n - i,
    {
        let ghost rest = b.subrange(i as int, n as int);
        let c = bytes[i];
        if c == 37 {
            let h1 = if n - i > 1 {
                hex_digit(bytes[i + 1])
            } else {
                None
            };
            let h2 = if n - i > 2 {
                hex_digit(bytes[i + 2])
            } else {
                None
            };
            let step: usize = if n - i >= 3 {
                3
            } else {
                n - i
            };
            assert(rest.subrange(step as int, rest.len() as int) == b.subrange(
                i + step,
                n as int,
            ));
            match (h1, h2) {
                (Some(x), Some(y)) => {
                    let v: u8 = (x * 16 + y) as u8;
                    push_char(&mut res, char_of_byte(v));
                },
                _ => {},
            }
            i = i + step;
        } else if plus_as_space && c == 43 {
            assert(rest.subrange(1, rest.len() as int) == b.subrange(i + 1, n as int));
            push_char(&mut res, ' ');
            i = i + 1;
        } else {
            assert(rest.subrange(1, rest.len() as int) == b.subrange(i + 1, n as int));
            push_char(&mut res, char_of_byte(c));
            i = i + 1;
        }
    }
    assert(b.subrange(n as int, n as int) == Seq::<u8>::empty());
    assert(res@ + Seq::<char>::empty() == res@);
    res
}

/// Percent-decodes a query value; `+` stands for a space.
pub fn url_decode(s: &str) -> (res: String)
    ensures
        res@ == percent_decode(encode_utf8(s@), true),
{
    percent_decode_str(s, true)
}

// ---------------------------------------------------------------------------
// Reading the token out of the callback request
// ---------------------------------------------------------------------------
/// The characters of `s` before the first `c` (all of `s` when there is none).
pub open spec fn take_until(s: Seq<char>, c: char) -> Seq<char>
    decreases s.len(),
{
    if s.len() == 0 {
        s
    } else if s[0] == c {
        seq![]
    } else {
        seq![s[0]] + take_until(s.drop_first(), c)
    }
}

/// The characters of `s` after its first `c`, if it has one.
pub open spec fn after_first(s: Seq<char>, c: char) -> Option<Seq<char>>
    decreases s.len(),
{
    if s.len() == 0 {
        None
    } else if s[0] == c {
        Some(s.drop_first())
    } else {
        after_first(s.drop_first(), c)
    }
}

/// What `str::lines().next()` returns: the text up to the first `\n`, without a
/// `\r` just before it; `None` for an empty string.
pub open spec fn first_line(s: Seq<char>) -> Option<Seq<char>> {
    if s.len() == 0 {
        None
    } else {
        let line = take_until(s, '\n');
        if after_first(s, '\n') is Some && line.len() > 0 && line.last() == '\r' {
            Some(line.drop_last())
        } else {
            Some(line)
        }
    }
}

/// The maximal non-empty runs of `s` free of separators, in order
/// (`split(..)` with empty pieces dropped; `split_whitespace` for white space).
/// `cur` is the run read so far.
pub open spec fn runs(s: Seq<char>, sep: spec_fn(char) -> bool, cur: Seq<char>) -> Seq<Seq<char>>
    decreases s.len(),
{
    if s.len() == 0 {
        if cur.len() > 0 {
            seq![cur]
        } else {
            seq![]
        }
    } else if sep(s[0]) {
        (if cur.len() > 0 {
            seq![cur]
        } else {
            seq![]
        }) + runs(s.drop_first(), sep, seq![])
    } else {
        runs(s.drop_first(), sep, cur.push(s[0]))
    }
}

/// Separator test for white space (`slash == false`) or `/` (`slash == true`).
pub open spec fn separator(slash: bool) -> spec_fn(char) -> bool {
    if slash {
        |c: char| c == '/'
    } else {
        |c: char| is_space(c)
    }
}

/// What `split_whitespace()` yields.
pub open spec fn words(s: Seq<char>) -> Seq<Seq<char>> {
    runs(s, separator(false), seq![])
}

/// The value of the first `token=` pair of a query, reading pairs left to right:
/// a pair without `=` ends the search with nothing.
pub open spec fn token_in_query(q: Seq<char>) -> Option<Seq<char>>
    decreases q.len(),
{
    let pair = take_until(q, '&');
    match after_first(pair, '=') {
        None => None,
        Some(value) => if take_until(pair, '=') == "token"@ {
            Some(value)
        } else {
            match after_first(q, '&') {
                None => None,
                Some(rest) => {
                    proof {
                        lemma_after_first_shorter(q, '&');
                    }
                    token_in_query(rest)
                },
            }
        },
    }
}

/// The query string of a request target: what lies between its first and second `?`.
pub open spec fn query_of(target: Seq<char>) -> Option<Seq<char>> {
    match after_first(target, '?') {
        None => None,
        Some(rest) => Some(take_until(rest, '?')),
    }
}

/// The raw (still percent-encoded) token of a callback request: in the second
/// word of the first line, the query's first `token=` value.
pub open spec fn raw_token(request: Seq<char>) -> Option<Seq<char>> {
    match first_line(request) {
        None => None,
        Some(line) => {
            let w = words(line);
            if w.len() < 2 {
                None
            } else {
                match query_of(w[1]) {
                    None => None,
                    Some(q) => token_in_query(q),
                }
            }
        },
    }
}

/// The token that the callback request carries, decoded.
pub open spec fn token_of_request(request: Seq<char>) -> Option<Seq<char>> {
    match raw_token(request) {
        None => None,
        Some(v) => Some(percent_decode(encode_utf8(v), true)),
    }
}

/// `after_first` leaves a strictly shorter rest.
pub proof fn lemma_after_first_shorter(s: Seq<char>, c: char)
    ensures
        after_first(s, c) matches Some(r) ==> r.len() < s.len(),
    decreases s.len(),
{
    if s.len() > 0 && s[0] != c {
        lemma_after_first_shorter(s.drop_first(), c);
    }
}

/// `take_until` on a vector: the characters before the first `c`.
fn take_until_vec(v: &Vec<char>, c: char) -> (res: Vec<char>)
    ensures
        res@ == take_until(v@, c),
{
    let mut res: Vec<char> = Vec::new();
    let mut i: usize = 0;
    assert(v@.subrange(0, v.len() as int) == v@);
    assert(res@ + take_until(v@, c) == take_until(v@, c));
    while i < v.len() && v[i] != c
        invariant
            i <= v.len(),
            res@ == v@.subrange(0, i as int),
            take_until(v@, c) == res@ + take_until(v@.subrange(i as int, v.len() as int), c),
        decreases v.len() - i,
    {
        let ghost r = v@.subrange(i as int, v.len() as int);
        assert(r.drop_first() == v@.subrange(i + 1, v.len() as int));
        res.push(v[i]);
        assert(v@.subrange(0, i + 1) == v@.subrange(0, i as int).push(v@[i as int]));
        i += 1;
    }
    res
}

/// `after_first` on a vector: the characters after the first `c`.
fn after_first_vec(v: &Vec<char>, c: char) -> (res: Option<Vec<char>>)
    ensures
        match res {
            None => after_first(v@, c) is None,
            Some(r) => after_first(v@, c) == Some(r@),
        },
{
    let mut i: usize = 0;
    assert(v@.subrange(0, v.len() as int) == v@);
    while i < v.len() && v[i] != c
        invariant
            i <= v.len(),
            after_first(v@, c) == after_first(v@.subrange(i as int, v.len() as int), c),
        decreases v.len() - i,
    {
        assert(v@.subrange(i as int, v.len() as int).drop_first() == v@.subrange(
            i + 1,
            v.len() as int,
        ));
        i += 1;
    }
    if i == v.len() {
        return None;
    }
    assert(v@.subrange(i as int, v.len() as int).drop_first() == v@.subrange(i + 1, v.len() as int));
    let mut res: Vec<char> = Vec::new();
    let mut j = i + 1;
    while j < v.len()
        invariant
            i < v.len(),
            i + 1 <= j <= v.len(),
            res@ == v@.subrange(i + 1, j as int),
        decreases v.len() - j,
    {
        res.push(v[j]);
        assert(v@.subrange(i + 1, j + 1) == v@.subrange(i + 1, j as int).push(v@[j as int]));
        j += 1;
    }
    Some(res)
}

/// `vs` holds, in order, vectors whose views are the sequences of `ss`.
pub open spec fn views_are(vs: Seq<Vec<char>>, ss: Seq<Seq<char>>) -> bool {
    &&& vs.len() == ss.len()
    &&& forall|k: int| 0 <= k < vs.len() ==> #[trigger] vs[k]@ == ss[k]
}

/// The separator-free runs of `v` (see `runs`).
pub(crate) fn split_runs(v: &Vec<char>, slash: bool) -> (res: Vec<Vec<char>>)
    ensures
        views_are(res@, runs(v@, separator(slash), seq![])),
{
    let mut out: Vec<Vec<char>> = Vec::new();
    let ghost g: Seq<Seq<char>> = seq![];
    let mut cur: Vec<char> = Vec::new();
    let mut i: usize = 0;
    assert(v@.subrange(0, v.len() as int) == v@);
    assert(g + runs(v@, separator(slash), seq![]) == runs(v@, separator(slash), seq![]));
    while i < v.len()
        invariant
            i <= v.len(),
            views_are(out@, g),
            g + runs(v@.subrange(i as int, v.len() as int), separator(slash), cur@) == runs(
                v@,
                separator(slash),
                seq![],
            ),
        decreases v.len() - i,
    {
        let ch = v[i];
        let ghost r = v@.subrange(i as int, v.len() as int);
        assert(r.drop_first() == v@.subrange(i + 1, v.len() as int));
        let is_sep = if slash {
            ch == '/'
        } else {
            char_is_space(ch)
        };
        assert(is_sep == separator(slash)(ch));
        if is_sep {
            if cur.len() > 0 {
                proof {
                    g = g + seq![cur@];
                }
                let done = cur;
                out.push(done);
                cur = Vec::new();
            } else {
                assert(g + Seq::<Seq<char>>::empty() == g);
            }
            assert(cur@ == Seq::<char>::empty());
        } else {
            cur.push(ch);
        }
        i += 1;
    }
    assert(v@.subrange(v.len() as int, v.len() as int) == Seq::<char>::empty());
    if cur.len() > 0 {
        proof {
            g = g + seq![cur@];
        }
        let done = cur;
        out.push(done);
    } else {
        assert(g + Seq::<Seq<char>>::empty() == g);
    }
    out
}

/// The first `token=` value of a query, read as `token_in_query` says.
fn token_in_query_vec(q: &Vec<char>) -> (res: Option<Vec<char>>)
    ensures
        match res {
            None => token_in_query(q@) is None,
            Some(t) => token_in_query(q@) == Some(t@),
        },
    decreases q@.len(),
{
    let pair = take_until_vec(q, '&');
    match after_first_vec(&pair, '=') {
        None => None,
        Some(value) => {
            let key = take_until_vec(&pair, '=');
            if is_token_key(&key) {
                Some(value)
            } else {
                match after_first_vec(q, '&') {
                    None => None,
                    Some(rest) => {
                        proof {
                            lemma_after_first_shorter(q@, '&');
                        }
                        token_in_query_vec(&rest)
                    },
                }
            }
        },
    }
}

/// Whether `key` is exactly `token`.
fn is_token_key(key: &Vec<char>) -> (b: bool)
    ensures
        b == (key@ == "token"@),
{
    proof {
        reveal_strlit("token");
    }
    if key.len() != 5 {
        assert(key@.len() != "token"@.len());
        return false;
    }
    let b = key[0] == 't' && key[1] == 'o' && key[2] == 'k' && key[3] == 'e' && key[4] == 'n';
    if b {
        assert(key@ == "token"@);
    } else {
        assert(key@ != "token"@) by {
            if key@ == "token"@ {
                assert(key@[0] == 't' && key@[1] == 'o' && key@[2] == 'k' && key@[3] == 'e'
                    && key@[4] == 'n');
            }
        }
    }
    b
}

/// The first line of the request, as `first_line` says.
fn first_line_vec(v: &Vec<char>) -> (res: Option<Vec<char>>)
    ensures
        match res {
            None => first_line(v@) is None,
            Some(l) => first_line(v@) == Some(l@),
        },
{
    if v.len() == 0 {
        return None;
    }
    let line = take_until_vec(v, '\n');
    let has_nl = match after_first_vec(v, '\n') {
        Some(_) => true,
        None => false,
    };
    if has_nl && line.len() > 0 && line[line.len() - 1] == '\r' {
        let mut cut: Vec<char> = Vec::new();
        let mut i: usize = 0;
        while i + 1 < line.len()
            invariant
                line.len() > 0,
                i + 1 <= line.len(),
                cut@ == line@.subrange(0, i as int),
            decreases line.len() - i,
        {
            cut.push(line[i]);
            assert(line@.subrange(0, i + 1) == line@.subrange(0, i as int).push(line@[i as int]));
            i += 1;
        }
        assert(cut@ == line@.drop_last());
        Some(cut)
    } else {
        Some(line)
    }
}

/// Reads the login token from the HTTP request that the callback listener received
/// (`GET /?token=... HTTP/1.1`): the first `token=` value of the query in the
/// request target, percent-decoded.
pub fn parse_token_from_request(request: &str) -> (res: Option<String>)
    ensures
        match res {
            None => token_of_request(request@) is None,
            Some(t) => token_of_request(request@) == Some(t@),
        },
{
    let v = to_chars(request);
    let line = match first_line_vec(&v) {
        None => return None,
        Some(l) => l,
    };
    let w = split_runs(&line, false);
    if w.len() < 2 {
        return None;
    }
    let after_q = match after_first_vec(&w[1], '?') {
        None => return None,
        Some(r) => r,
    };
    let query = take_until_vec(&after_q, '?');
    let raw = match token_in_query_vec(&query) {
        None => return None,
        Some(t) => t,
    };
    let raw_str = string_from_chars(&raw, 0, raw.len());
    assert(raw@.subrange(0, raw.len() as int) == raw@);
    Some(url_decode(raw_str.as_str()))
}

} // verus!

verus! {

/// Percent-decoding never makes a text longer than its bytes.
pub proof fn lemma_decode_shrinks(b: Seq<u8>, plus_as_space: bool)
    ensures
        percent_decode(b, plus_as_space).len() <= b.len(),
    decreases b.len(),
{
    if b.len() > 0 {
        if b[0] == 37 {
            let step: int = if b.len() >= 3 {
                3
            } else {
                b.len() as int
            };
            lemma_decode_shrinks(b.subrange(step, b.len() as int), plus_as_space);
        } else {
            lemma_decode_shrinks(b.subrange(1, b.len() as int), plus_as_space);
        }
    }
}

/// Query decoding (`+` as space) and path decoding (`+` kept) agree on bytes
/// without `+`.
pub proof fn lemma_decode_modes_agree(b: Seq<u8>)
    requires
        forall|i: int| 0 <= i < b.len() ==> b[i] != 43,
    ensures
        percent_decode(b, true) == percent_decode(b, false),
    decreases b.len(),
{
    if b.len() > 0 {
        let step: int = if b[0] == 37 && b.len() >= 3 {
            3
        } else if b[0] == 37 {
            b.len() as int
        } else {
            1
        };
        let rest = b.subrange(step, b.len() as int);
        assert forall|i: int| 0 <= i < rest.len() implies rest[i] != 43 by {
            assert(rest[i] == b[step + i]);
        }
        lemma_decode_modes_agree(rest);
    }
}

/// Decoding gives back, unchanged, an ASCII text without `%`, and without `+`
/// where `+` stands for a space.
pub proof fn lemma_decode_plain_ascii(s: Seq<char>, plus_as_space: bool)
    requires
        vstd::utf8::is_ascii_chars(s),
        forall|i: int| 0 <= i < s.len() ==> s[i] != '%' && (plus_as_space ==> s[i] != '+'),
    ensures
        percent_decode(encode_utf8(s), plus_as_space) == s,
    decreases s.len(),
{
    vstd::utf8::is_ascii_chars_encode_utf8(s);
    if s.len() > 0 {
        let b = encode_utf8(s);
        let t = s.drop_first();
        assert(vstd::utf8::is_ascii_chars(t));
        lemma_decode_plain_ascii(t, plus_as_space);
        assert(b.subrange(1, b.len() as int) == encode_utf8(t)) by {
            vstd::utf8::is_ascii_chars_encode_utf8(t);
            assert forall|i: int| 0 <= i < t.len() implies b.subrange(1, b.len() as int)[i]
                == encode_utf8(t)[i] by {
                assert(s[i + 1] == t[i]);
            }
        }
        let c = s[0];
        let u: u32 = c as u32;
        assert(b[0] == c as u8);
        assert(u < 128);
        assert((u as u8) as u32 == u) by (bit_vector)
            requires
                u < 128,
        ;
        assert(c as u8 == u as u8);
        assert(b[0] as u32 == u);
        assert(b[0] != 37 && (plus_as_space ==> b[0] != 43));
        vstd::utf8::char_u32_cast(c, u);
        assert(byte_char(b[0]) == c);
        assert(seq![c] + t == s);
    }
}

/// The hexadecimal digit for `d < 16`, in upper or lower case.
pub open spec fn hex_digit_in_case(d: nat, upper: bool) -> char {
    if d < 10 {
        ((48 + d) as u32) as char
    } else if upper {
        ((55 + d) as u32) as char
    } else {
        ((87 + d) as u32) as char
    }
}

/// Every character of `t` written as `%` and two hexadecimal digits of its code.
pub open spec fn percent_encoded(t: Seq<char>, upper: bool) -> Seq<char> {
    Seq::new(
        3 * t.len(),
        |i: int|
            if i % 3 == 0 {
                '%'
            } else if i % 3 == 1 {
                hex_digit_in_case((t[i / 3] as nat) / 16, upper)
            } else {
                hex_digit_in_case((t[i / 3] as nat) % 16, upper)
            },
    )
}

proof fn lemma_hex_digit_in_case(d: nat, upper: bool)
    requires
        d < 16,
    ensures
        (hex_digit_in_case(d, upper) as u32) < 128,
        hex_value(hex_digit_in_case(d, upper) as u8) == Some(d as u32),
{
}

proof fn lemma_decode_encoded_from(t: Seq<char>, upper: bool, p: bool, b: Seq<u8>, k: int)
    requires
        vstd::utf8::is_ascii_chars(t),
        b.len() == 3 * t.len(),
        forall|i: int| 0 <= i < b.len() ==> b[i] == #[trigger] percent_encoded(t, upper)[i] as u8,
        0 <= k <= t.len(),
    ensures
        percent_decode(b.subrange(3 * k, b.len() as int), p) == t.subrange(k, t.len() as int),
    decreases t.len() - k,
{
    let e = percent_encoded(t, upper);
    let r = b.subrange(3 * k, b.len() as int);
    if k < t.len() {
        lemma_decode_encoded_from(t, upper, p, b, k + 1);
        let c = t[k];
        let u: u32 = c as u32;
        assert('\0' <= c <= '\u{7f}');
        assert(u < 128);
        let d1: nat = (u as nat) / 16;
        let d2: nat = (u as nat) % 16;
        lemma_hex_digit_in_case(d1, upper);
        lemma_hex_digit_in_case(d2, upper);
        assert((3 * k) / 3 == k && (3 * k) % 3 == 0);
        assert((3 * k + 1) / 3 == k && (3 * k + 1) % 3 == 1);
        assert((3 * k + 2) / 3 == k && (3 * k + 2) % 3 == 2);
        assert(r[0] == b[3 * k] && b[3 * k] == e[3 * k] as u8);
        assert(r[1] == b[3 * k + 1] && b[3 * k + 1] == e[3 * k + 1] as u8);
        assert(r[2] == b[3 * k + 2] && b[3 * k + 2] == e[3 * k + 2] as u8);
        assert(e[3 * k] == '%');
        assert(e[3 * k + 1] == hex_digit_in_case(d1, upper));
        assert(e[3 * k + 2] == hex_digit_in_case(d2, upper));
        assert(r[0] == 37);
        assert(hex_value(r[1]) == Some(d1 as u32));
        assert(hex_value(r[2]) == Some(d2 as u32));
        assert(d1 * 16 + d2 == u);
        assert((u as u8) as u32 == u) by (bit_vector)
            requires
                u < 128,
        ;
        vstd::utf8::char_u32_cast(c, u);
        assert(byte_char((d1 * 16 + d2) as u8) == c);
        assert(r.subrange(3, r.len() as int) == b.subrange(3 * (k + 1), b.len() as int));
        assert(seq![c] + t.subrange(k + 1, t.len() as int) == t.subrange(k, t.len() as int));
    } else {
        assert(r.len() == 0);
        assert(t.subrange(k, t.len() as int).len() == 0);
    }
}

/// Writing each character of an ASCII text as `%XX` (upper- or lower-case
/// digits) and decoding the result, as a query value or as a path, gives the
/// text back.
pub proof fn lemma_percent_round_trip(t: Seq<char>, upper: bool)
    requires
        vstd::utf8::is_ascii_chars(t),
    ensures
        percent_decode(encode_utf8(percent_encoded(t, upper)), true) == t,
        percent_decode(encode_utf8(percent_encoded(t, upper)), false) == t,
{
    let e = percent_encoded(t, upper);
    assert forall|i: int| 0 <= i < e.len() implies '\0' <= #[trigger] e[i] <= '\u{7f}' by {
        let c = t[i / 3];
        assert('\0' <= c <= '\u{7f}');
        lemma_hex_digit_in_case((c as nat) / 16, upper);
        lemma_hex_digit_in_case((c as nat) % 16, upper);
    }
    assert(vstd::utf8::is_ascii_chars(e));
    vstd::utf8::is_ascii_chars_encode_utf8(e);
    let b = encode_utf8(e);
    lemma_decode_encoded_from(t, upper, true, b, 0);
    lemma_decode_encoded_from(t, upper, false, b, 0);
    assert(b.subrange(0, b.len() as int) == b);
    assert(t.subrange(0, t.len() as int) == t);
}

} // verus!
