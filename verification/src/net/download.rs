//! Where a downloaded file is kept: a path below the temporary directory
//! made of the source host and the sanitized components of the destination.
use vstd::prelude::*;
use vstd::utf8::encode_utf8;

use crate::net::auth::{percent_decode, percent_decode_str, runs, separator, split_runs, views_are};
use crate::net::client::opt_view;
use crate::text::{lemma_trim_end_char_prefix, lemma_trim_end_prefix, lemma_trim_start_suffix};
use crate::text::{is_space, owned, string_from_chars, to_chars, trim, trim_end, trim_end_char, trim_start, trim_then_strip_end};

verus! {

/// The characters that Windows does not allow in a file name.
pub open spec fn is_bad_char(c: char) -> bool {
    ||| c == '<'
    ||| c == '>'
    ||| c == ':'
    ||| c == '"'
    ||| c == '/'
    ||| c == '\\'
    ||| c == '|'
    ||| c == '?'
    ||| c == '*'
}

/// A character as it stands in a sanitized component: forbidden and control
/// characters become `_`.
pub open spec fn scrub(c: char) -> char {
    if is_bad_char(c) || (c as u32) < 32 {
        '_'
    } else {
        c
    }
}

/// A path component made safe for the file system: characters scrubbed, white
/// space trimmed, trailing dots removed, and `_` in place of what is left empty.
pub open spec fn sanitized(part: Seq<char>) -> Seq<char> {
    let cleaned = trim_end_char(trim(part.map_values(|c: char| scrub(c))), '.');
    if cleaned.len() == 0 {
        seq!['_']
    } else {
        cleaned
    }
}

fn scrub_char(c: char) -> (r: char)
    ensures
        r == scrub(c),
{
    if c == '<' || c == '>' || c == ':' || c == '"' || c == '/' || c == '\\' || c == '|' || c == '?'
        || c == '*' || (c as u32) < 32 {
        '_'
    } else {
        c
    }
}

/// Sanitizes a path component for the Windows file system.
pub fn sanitize_component(part: &str) -> (res: String)
    ensures
        res@ == sanitized(part@),
{
    let v = to_chars(part);
    let mut out: Vec<char> = Vec::new();
    let mut i: usize = 0;
    while i < v.len()
        invariant
            i <= v.len(),
            v@ == part@,
            out@ == v@.subrange(0, i as int).map_values(|c: char| scrub(c)),
        decreases v.len() - i,
    {
        out.push(scrub_char(v[i]));
        assert(v@.subrange(0, i + 1).map_values(|c: char| scrub(c)) == v@.subrange(
            0,
            i as int,
        ).map_values(|c: char| scrub(c)).push(scrub(v@[i as int])));
        i += 1;
    }
    assert(v@.subrange(0, v.len() as int) == v@);
    let cleaned = trim_then_strip_end(&out, '.');
    if cleaned.len() == 0 {
        proof {
            reveal_strlit("_");
        }
        owned("_")
    } else {
        let s = string_from_chars(&cleaned, 0, cleaned.len());
        assert(cleaned@.subrange(0, cleaned.len() as int) == cleaned@);
        s
    }
}

/// Percent-decodes a path; `+` stays as it is.
pub fn url_decode_path(s: &str) -> (res: String)
    ensures
        res@ == percent_decode(encode_utf8(s@), false),
{
    percent_decode_str(s, false)
}

/// The host of a URL as the `url` crate parses it, if the text parses and has one.
pub uninterp spec fn url_host_of(url: Seq<char>) -> Option<Seq<char>>;

/// Parses `url` (`url::Url::parse`) and takes its host (`Url::host_str`).
/// Claimed: the result is `url_host_of` the text.
#[verifier::external_body]
fn url_host(url: &str) -> (res: Option<String>)
    ensures
        opt_view(res) == url_host_of(url@),
{
    match url::Url::parse(url) {
        Ok(u) => u.host_str().map(String::from),
        Err(_) => None,
    }
}

/// The first component of a job's path: the sanitized host, or a fixed name.
pub open spec fn host_component(host: Option<Seq<char>>) -> Seq<char> {
    match host {
        Some(h) => sanitized(h),
        None => "unknown-host"@,
    }
}

/// The components, below the temporary directory, of the file a job is
/// downloaded to: the host, then each non-empty `/`-separated part of the
/// decoded destination, sanitized (leading slashes make empty parts, so they
/// drop out).
pub open spec fn job_path(host: Option<Seq<char>>, dest_path: Seq<char>) -> Seq<Seq<char>> {
    seq![host_component(host)] + runs(
        percent_decode(encode_utf8(dest_path), false),
        separator(true),
        seq![],
    ).map_values(|p: Seq<char>| sanitized(p))
}

/// `v` holds, in order, strings whose views are the sequences of `s`.
pub open spec fn strings_are(v: Seq<String>, s: Seq<Seq<char>>) -> bool {
    &&& v.len() == s.len()
    &&& forall|k: int| 0 <= k < v.len() ==> #[trigger] v[k]@ == s[k]
}

/// The path components of a job, given the host that the URL parser found.
pub fn local_path_from_host(host: Option<String>, dest_path: &str) -> (res: Vec<String>)
    ensures
        strings_are(res@, job_path(opt_view(host), dest_path@)),
{
    let first = match host {
        Some(h) => sanitize_component(h.as_str()),
        None => owned("unknown-host"),
    };
    let decoded = url_decode_path(dest_path);
    let dv = to_chars(decoded.as_str());
    let parts = split_runs(&dv, true);
    let ghost rs = runs(dv@, separator(true), seq![]);
    let mut res: Vec<String> = Vec::new();
    res.push(first);
    let mut i: usize = 0;
    while i < parts.len()
        invariant
            i <= parts.len(),
            views_are(parts@, rs),
            res.len() == i + 1,
            res@[0]@ == host_component(opt_view(host)),
            forall|k: int| 0 <= k < i ==> #[trigger] res@[k + 1]@ == sanitized(rs[k]),
        decreases parts.len() - i,
    {
        let p = string_from_chars(&parts[i], 0, parts[i].len());
        assert(parts@[i as int]@.subrange(0, parts@[i as int]@.len() as int) == parts@[i as int]@);
        let s = sanitize_component(p.as_str());
        res.push(s);
        i += 1;
    }
    proof {
        let want = job_path(opt_view(host), dest_path@);
        assert(want.len() == res.len());
        assert forall|k: int| 0 <= k < res.len() implies #[trigger] res@[k]@ == want[k] by {
            if k > 0 {
                assert(res@[(k - 1) + 1]@ == sanitized(rs[k - 1]));
            }
        }
    }
    res
}

/// The path, below the temporary directory, that a job's download is kept at:
/// its components in order (the caller joins them onto the directory).
pub fn local_path_for_job(url: &str, dest_path: &str) -> (res: Vec<String>)
    ensures
        strings_are(res@, job_path(url_host_of(url@), dest_path@)),
{
    let host = url_host(url);
    local_path_from_host(host, dest_path)
}

} // verus!

verus! {

/// A path component that stays inside its directory and is a valid Windows
/// name: not empty, free of forbidden and control characters (so free of
/// separators), and not ending in a dot (so neither `.` nor `..`).
pub open spec fn safe_component(s: Seq<char>) -> bool {
    &&& s.len() > 0
    &&& forall|i: int| 0 <= i < s.len() ==> !is_bad_char(#[trigger] s[i]) && (s[i] as u32) >= 32
    &&& s.last() != '.'
}

/// The steps of `sanitized`: scrubbing, trimming, and stripping trailing dots,
/// each keeping a contiguous part of what it is given.
proof fn lemma_sanitized_parts(part: Seq<char>)
    ensures
        ({
            let m = part.map_values(|c: char| scrub(c));
            let u = trim_start(m);
            let t = trim_end(u);
            let cleaned = trim_end_char(t, '.');
            &&& u.len() <= m.len() && t.len() <= u.len() && cleaned.len() <= t.len()
            &&& u == m.subrange(m.len() - u.len(), m.len() as int)
            &&& t == u.subrange(0, t.len() as int)
            &&& cleaned == t.subrange(0, cleaned.len() as int)
            &&& u.len() > 0 ==> !is_space(u[0])
            &&& cleaned.len() > 0 ==> cleaned.last() != '.'
            &&& cleaned == trim_end_char(trim(m), '.')
        }),
{
    let m = part.map_values(|c: char| scrub(c));
    lemma_trim_start_suffix(m);
    lemma_trim_end_prefix(trim_start(m));
    lemma_trim_end_char_prefix(trim_end(trim_start(m)), '.');
}

/// Every sanitized component is safe: it cannot name a parent or the current
/// directory, nor hold a separator or a character that Windows forbids.
pub proof fn lemma_sanitized_is_safe(part: Seq<char>)
    ensures
        safe_component(sanitized(part)),
{
    lemma_sanitized_parts(part);
    let m = part.map_values(|c: char| scrub(c));
    let u = trim_start(m);
    let t = trim_end(u);
    let cleaned = trim_end_char(t, '.');
    if cleaned.len() > 0 {
        assert forall|i: int| 0 <= i < cleaned.len() implies !is_bad_char(#[trigger] cleaned[i])
            && (cleaned[i] as u32) >= 32 by {
            assert(cleaned[i] == t[i]);
            assert(t[i] == u[i]);
            assert(u[i] == m[m.len() - u.len() + i]);
        }
    }
}

/// Sanitizing is idempotent, except where the result ends in white space
/// (stripping trailing dots after trimming can uncover it, as in `"a ."`).
pub proof fn lemma_sanitize_idempotent(part: Seq<char>)
    requires
        !is_space(sanitized(part).last()),
    ensures
        sanitized(sanitized(part)) == sanitized(part),
{
    let y = sanitized(part);
    lemma_sanitized_is_safe(part);
    lemma_sanitized_parts(part);
    let m = part.map_values(|c: char| scrub(c));
    let u = trim_start(m);
    let t = trim_end(u);
    let cleaned = trim_end_char(t, '.');
    assert(!is_space(y[0])) by {
        if cleaned.len() > 0 {
            assert(cleaned[0] == t[0]);
            assert(t[0] == u[0]);
        }
    }
    let my = y.map_values(|c: char| scrub(c));
    assert(my == y);
    assert(trim_start(y) == y);
    assert(trim_end(y) == y);
    assert(trim_end_char(y, '.') == y);
}

/// Every component of a job's local path is safe, so the path stays below the
/// temporary directory.
pub proof fn lemma_job_path_is_safe(host: Option<Seq<char>>, dest_path: Seq<char>)
    ensures
        forall|i: int| 0 <= i < job_path(host, dest_path).len() ==> safe_component(
            #[trigger] job_path(host, dest_path)[i],
        ),
{
    let p = job_path(host, dest_path);
    assert forall|i: int| 0 <= i < p.len() implies safe_component(#[trigger] p[i]) by {
        if i == 0 {
            match host {
                Some(h) => lemma_sanitized_is_safe(h),
                None => {
                    reveal_strlit("unknown-host");
                    assert(safe_component("unknown-host"@));
                },
            }
        } else {
            let rs = runs(percent_decode(encode_utf8(dest_path), false), separator(true), seq![]);
            lemma_sanitized_is_safe(rs[i - 1]);
        }
    }
}

/// A character that sanitizing keeps: none of `<>:"/\|?*` and not a control
/// character (below U+0020).
pub open spec fn kept_char(c: char) -> bool {
    &&& c != '<' && c != '>' && c != ':' && c != '"' && c != '/'
    &&& c != '\\' && c != '|' && c != '?' && c != '*'
    &&& (c as u32) >= 32
}

/// A name made only of kept characters, with no white space at either end
/// and no trailing dot, comes out of sanitizing unchanged (so `Don't Stop.mp3`
/// and `C++ Primer.pdf` stay as they are).
pub proof fn lemma_sanitize_keeps_plain_names(part: Seq<char>)
    requires
        part.len() > 0,
        forall|i: int| 0 <= i < part.len() ==> kept_char(#[trigger] part[i]),
        !is_space(part[0]),
        !is_space(part.last()),
        part.last() != '.',
    ensures
        sanitized(part) == part,
{
    let m = part.map_values(|c: char| scrub(c));
    assert(m == part);
    assert(trim_start(part) == part);
    assert(trim_end(part) == part);
    assert(trim_end_char(part, '.') == part);
}

/// The `n` characters of `part` from `o` on, with each character that is not
/// a kept character replaced by `_`.
pub open spec fn replaced_stretch(part: Seq<char>, o: int, n: nat) -> Seq<char> {
    Seq::new(n, |j: int| if kept_char(part[o + j]) { part[o + j] } else { '_' })
}

/// Sanitizing replaces nothing but forbidden and control characters: its
/// result is `_`, or a contiguous stretch of the name in which every
/// character is kept as it is except those that are not kept characters,
/// which become `_`. It is never empty and never starts with white space.
pub proof fn lemma_sanitize_only_replaces(part: Seq<char>)
    ensures
        sanitized(part) == seq!['_'] || exists|o: int|
            0 <= o && o + sanitized(part).len() <= part.len() && sanitized(part)
                == #[trigger] replaced_stretch(part, o, sanitized(part).len()),
        sanitized(part).len() > 0,
        !is_space(sanitized(part)[0]),
{
    lemma_sanitized_parts(part);
    let m = part.map_values(|c: char| scrub(c));
    let u = trim_start(m);
    let t = trim_end(u);
    let cleaned = trim_end_char(t, '.');
    if cleaned.len() > 0 {
        assert(cleaned[0] == t[0] && t[0] == u[0]);
        let o = m.len() - u.len();
        let r = replaced_stretch(part, o, cleaned.len());
        assert forall|j: int| 0 <= j < cleaned.len() implies cleaned[j] == r[j] by {
            assert(cleaned[j] == t[j]);
            assert(t[j] == u[j]);
            assert(u[j] == m[o + j]);
        }
        assert(sanitized(part) == r);
    }
}

/// Runs of a text free of separators: the one run it makes, if any.
proof fn lemma_runs_without_separator(s: Seq<char>, sep: spec_fn(char) -> bool, cur: Seq<char>)
    requires
        forall|i: int| 0 <= i < s.len() ==> !sep(s[i]),
    ensures
        runs(s, sep, cur) == (if cur.len() + s.len() > 0 {
            seq![cur + s]
        } else {
            seq![]
        }),
    decreases s.len(),
{
    if s.len() > 0 {
        assert(!sep(s[0]));
        lemma_runs_without_separator(s.drop_first(), sep, cur.push(s[0]));
        assert(cur.push(s[0]) + s.drop_first() == cur + s);
    } else {
        assert(cur + s == cur);
    }
}

/// Path decoding keeps `+` (and every other character but `%`): for an ASCII
/// destination without `%`, the components below the host are exactly the
/// destination's non-empty `/`-separated parts, each sanitized, and a
/// destination without `/` is a single component.
pub proof fn lemma_job_path_plain(host: Option<Seq<char>>, dest: Seq<char>)
    requires
        vstd::utf8::is_ascii_chars(dest),
        forall|i: int| 0 <= i < dest.len() ==> dest[i] != '%',
    ensures
        job_path(host, dest) == seq![host_component(host)] + runs(
            dest,
            separator(true),
            seq![],
        ).map_values(|p: Seq<char>| sanitized(p)),
        dest.len() > 0 && (forall|i: int| 0 <= i < dest.len() ==> dest[i] != '/') ==> job_path(
            host,
            dest,
        ) == seq![host_component(host), sanitized(dest)],
{
    crate::net::auth::lemma_decode_plain_ascii(dest, false);
    if dest.len() > 0 && (forall|i: int| 0 <= i < dest.len() ==> dest[i] != '/') {
        lemma_runs_without_separator(dest, separator(true), seq![]);
        assert(seq![] + dest == dest);
        let r = runs(dest, separator(true), seq![]);
        assert(r.map_values(|p: Seq<char>| sanitized(p)) == seq![sanitized(dest)]);
    }
}

/// The first component of a job's path is its host, sanitized, or
/// `unknown-host` when the URL gives none; the destination's components follow.
pub proof fn lemma_job_path_host(host: Option<Seq<char>>, dest: Seq<char>)
    ensures
        job_path(host, dest).len() >= 1,
        host matches Some(h) ==> job_path(host, dest)[0] == sanitized(h),
        host is None ==> job_path(host, dest)[0] == "unknown-host"@,
{
}

} // verus!
