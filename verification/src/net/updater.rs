//! Checking for a newer release, and where the update is fetched and put.
use vstd::prelude::*;

use crate::text::{owned, push_str};
use crate::ui::messages::UiMessage;
use crate::worker::config::VERSION;

verus! {

/// Where the newest release's version is published.
pub fn version_url(server_url: &str) -> (res: String)
    ensures
        res@ == server_url@ + "/worker/exe/version"@,
{
    let mut s = owned(server_url);
    push_str(&mut s, "/worker/exe/version");
    s
}

/// Where the newest release's executable is downloaded from.
pub fn exe_download_url(server_url: &str) -> (res: String)
    ensures
        res@ == server_url@ + "/worker/exe/download"@,
{
    let mut s = owned(server_url);
    push_str(&mut s, "/worker/exe/download");
    s
}

// ---------------------------------------------------------------------------
// Versions
// ---------------------------------------------------------------------------
/// An ASCII decimal digit.
pub open spec fn is_ascii_digit(c: char) -> bool {
    '0' <= c <= '9'
}

/// The numbers of a version text, read from the left; `cur` is the value of
/// the number being read (`None` before its first digit). `None` when the
/// text is not a version.
pub open spec fn parts_from(s: Seq<char>, cur: Option<u64>) -> Option<Seq<u64>>
    decreases s.len(),
{
    if s.len() == 0 {
        match cur {
            Some(v) => Some(seq![v]),
            None => None,
        }
    } else if s[0] == '.' {
        match cur {
            None => None,
            Some(v) => match parts_from(s.drop_first(), None) {
                Some(p) => Some(seq![v] + p),
                None => None,
            },
        }
    } else if is_ascii_digit(s[0]) {
        let before: nat = match cur {
            Some(v) => v as nat,
            None => 0,
        };
        let v: nat = before * 10 + ((s[0] as nat) - 48) as nat;
        if v > u64::MAX {
            None
        } else {
            parts_from(s.drop_first(), Some(v as u64))
        }
    } else {
        None
    }
}

/// The numbers of a version such as `1.2.4`: one or more numbers separated by
/// dots, each one or more ASCII digits whose value fits in 64 bits. Any other
/// text (empty, with another character, an empty number, or a number too
/// large) is not a version, and gives `None`.
pub open spec fn version_parts(s: Seq<char>) -> Option<Seq<u64>> {
    parts_from(s, None)
}

/// The `i`-th number of a version, missing numbers counting as 0.
pub open spec fn part_at(p: Seq<u64>, i: int) -> nat {
    if 0 <= i < p.len() {
        p[i] as nat
    } else {
        0
    }
}

/// `a` is a later version than `b`: at the first place where they differ
/// (missing numbers counting as 0), `a`'s number is the larger.
pub open spec fn version_greater(a: Seq<u64>, b: Seq<u64>) -> bool {
    exists|k: int|
        0 <= k < a.len() + b.len() && #[trigger] part_at(a, k) > part_at(b, k) && forall|i: int|
            0 <= i < k ==> #[trigger] part_at(a, i) == part_at(b, i)
}

/// `remote` names a newer version than `current`. Text that is not a version,
/// on either side, is never newer.
pub open spec fn newer(remote: Seq<char>, current: Seq<char>) -> bool {
    match (version_parts(remote), version_parts(current)) {
        (Some(r), Some(c)) => version_greater(r, c),
        _ => false,
    }
}

/// A published version that calls for an update: newer than this one.
pub open spec fn calls_for_update(remote: Seq<char>) -> bool {
    newer(remote, VERSION@)
}

/// Reads the numbers of a version text.
pub fn parse_version(s: &str) -> (res: Option<Vec<u64>>)
    ensures
        match (res, version_parts(s@)) {
            (Some(v), Some(p)) => v@ == p,
            (None, None) => true,
            _ => false,
        },
{
    let chars = crate::text::to_chars(s);
    let n = chars.len();
    let mut done: Vec<u64> = Vec::new();
    let mut cur: Option<u64> = None;
    let mut i: usize = 0;
    assert(chars@.subrange(0, n as int) == s@);
    while i < n
        invariant
            n == chars.len(),
            chars@ == s@,
            i <= n,
            version_parts(s@) == match parts_from(chars@.subrange(i as int, n as int), cur) {
                Some(p) => Some(done@ + p),
                None => None,
            },
        decreases n - i,
    {
        let ghost rest = chars@.subrange(i as int, n as int);
        assert(rest.drop_first() == chars@.subrange(i + 1, n as int));
        let c = chars[i];
        if c == '.' {
            match cur {
                None => {
                    return None;
                },
                Some(v) => {
                    proof {
                        let tail = parts_from(rest.drop_first(), None);
                        if let Some(p) = tail {
                            assert(done@.push(v) + p == done@ + (seq![v] + p));
                        }
                    }
                    done.push(v);
                    cur = None;
                },
            }
        } else if '0' <= c && c <= '9' {
            let d: u64 = ((c as u32) - 48) as u64;
            let before: u64 = match cur {
                Some(v) => v,
                None => 0,
            };
            match before.checked_mul(10) {
                None => {
                    return None;
                },
                Some(m) => match m.checked_add(d) {
                    None => {
                        return None;
                    },
                    Some(v) => {
                        cur = Some(v);
                    },
                },
            }
        } else {
            return None;
        }
        i += 1;
    }
    assert(chars@.subrange(n as int, n as int).len() == 0);
    match cur {
        None => None,
        Some(v) => {
            done.push(v);
            Some(done)
        },
    }
}

/// Whether version `a` is later than version `b`.
pub fn version_is_greater(a: &Vec<u64>, b: &Vec<u64>) -> (res: bool)
    ensures
        res == version_greater(a@, b@),
{
    let n: usize = if a.len() < b.len() {
        b.len()
    } else {
        a.len()
    };
    let mut i: usize = 0;
    while i < n
        invariant
            n == if a.len() < b.len() {
                b.len()
            } else {
                a.len()
            },
            i <= n,
            forall|j: int| 0 <= j < i ==> #[trigger] part_at(a@, j) == part_at(b@, j),
        decreases n - i,
    {
        let x: u64 = if i < a.len() {
            a[i]
        } else {
            0
        };
        let y: u64 = if i < b.len() {
            b[i]
        } else {
            0
        };
        assert(part_at(a@, i as int) == x && part_at(b@, i as int) == y);
        if x > y {
            assert(version_greater(a@, b@));
            return true;
        }
        if x < y {
            assert(!version_greater(a@, b@)) by {
                if version_greater(a@, b@) {
                    let k = choose|k: int|
                        0 <= k < a@.len() + b@.len() && #[trigger] part_at(a@, k) > part_at(b@, k)
                            && forall|j: int| 0 <= j < k ==> #[trigger] part_at(a@, j) == part_at(
                            b@,
                            j,
                        );
                    if k > i {
                        assert(part_at(a@, i as int) == part_at(b@, i as int));
                    }
                }
            }
            return false;
        }
        i += 1;
    }
    assert(!version_greater(a@, b@)) by {
        if version_greater(a@, b@) {
            let k = choose|k: int|
                0 <= k < a@.len() + b@.len() && #[trigger] part_at(a@, k) > part_at(b@, k) && forall|
                    j: int,
                | 0 <= j < k ==> #[trigger] part_at(a@, j) == part_at(b@, j);
            if k < n {
                assert(part_at(a@, k) == part_at(b@, k));
            }
        }
    }
    false
}

/// Whether `remote` names a newer version than `current`.
pub fn is_newer(remote: &str, current: &str) -> (res: bool)
    ensures
        res == newer(remote@, current@),
{
    match (parse_version(remote), parse_version(current)) {
        (Some(r), Some(c)) => version_is_greater(&r, &c),
        _ => false,
    }
}

/// The notice to show for the version the server published: one only when
/// it is newer than this worker's version.
pub fn update_notice(remote: String) -> (res: Option<UiMessage>)
    ensures
        calls_for_update(remote@) <==> res is Some,
        res matches Some(m) ==> (m matches UiMessage::UpdateAvailable { current, remote: r } && current@
            == VERSION@ && r@ == remote@),
{
    if is_newer(remote.as_str(), VERSION) {
        Some(UiMessage::UpdateAvailable { current: owned(VERSION), remote })
    } else {
        None
    }
}

/// The path with `.` and `ext` appended to its last component (`x.exe` becomes `x.exe.old`).
pub fn append_ext(path: &str, ext: &str) -> (res: String)
    ensures
        res@ == path@ + "."@ + ext@,
{
    let mut s = owned(path);
    push_str(&mut s, ".");
    push_str(&mut s, ext);
    s
}

} // verus!
