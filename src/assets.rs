//! Names of the application's bundled assets.
use vstd::prelude::*;

verus! {

/// Whether `s` starts with `p`.
pub open spec fn has_prefix(s: Seq<char>, p: Seq<char>) -> bool {
    p.len() <= s.len() && s.subrange(0, p.len() as int) == p
}

/// `s` with every leading repetition of the non-empty `p` removed.
pub open spec fn trim_prefix_all(s: Seq<char>, p: Seq<char>) -> Seq<char>
    decreases s.len(),
{
    if p.len() > 0 && has_prefix(s, p) {
        trim_prefix_all(s.subrange(p.len() as int, s.len() as int), p)
    } else {
        s
    }
}

/// `s` without the prefix `p`, or `s` itself when it does not start with it.
pub open spec fn strip_prefix_once(s: Seq<char>, p: Seq<char>) -> Seq<char> {
    if has_prefix(s, p) {
        s.subrange(p.len() as int, s.len() as int)
    } else {
        s
    }
}

/// The key under which the asset at `path` is stored: leading `/`, `.\`
/// and `./` removed in that order, then one leading `assets/` or, failing
/// that, `assets\`.
pub open spec fn asset_key_of(path: Seq<char>) -> Seq<char> {
    let n = trim_prefix_all(trim_prefix_all(trim_prefix_all(path, "/"@), ".\\"@), "./"@);
    if has_prefix(n, "assets/"@) {
        strip_prefix_once(n, "assets/"@)
    } else {
        strip_prefix_once(n, "assets\\"@)
    }
}

/// Whether `s` holds `p` from position `at` on.
fn holds_at(s: &str, at: usize, p: &str) -> (r: bool)
    requires
        at <= s@.len(),
    ensures
        r == has_prefix(s@.subrange(at as int, s@.len() as int), p@),
{
    let n = s.unicode_len();
    let m = p.unicode_len();
    if m > n - at {
        return false;
    }
    let mut i: usize = 0;
    while i < m
        invariant
            n == s@.len(),
            m == p@.len(),
            at + m <= n,
            i <= m,
            forall|j: int| 0 <= j < i ==> s@[at + j] == p@[j],
        decreases m - i,
    {
        if s.get_char(at + i) != p.get_char(i) {
            proof {
                assert(s@.subrange(at as int, n as int).subrange(0, m as int)[i as int] != p@[i as int]);
            }
            return false;
        }
        i = i + 1;
    }
    proof {
        assert(s@.subrange(at as int, n as int).subrange(0, m as int) =~= p@);
    }
    true
}

/// The position past every repetition of `p` that starts at `at`.
fn skip_all(s: &str, at: usize, p: &str) -> (r: usize)
    requires
        at <= s@.len(),
        p@.len() > 0,
    ensures
        at <= r <= s@.len(),
        s@.subrange(r as int, s@.len() as int) == trim_prefix_all(s@.subrange(at as int, s@.len() as int), p@),
{
    let n = s.unicode_len();
    let m = p.unicode_len();
    let mut pos = at;
    while holds_at(s, pos, p)
        invariant
            n == s@.len(),
            m == p@.len(),
            m > 0,
            at <= pos <= n,
            trim_prefix_all(s@.subrange(pos as int, n as int), p@) == trim_prefix_all(
                s@.subrange(at as int, n as int),
                p@,
            ),
        decreases n - pos,
    {
        proof {
            let rest = s@.subrange(pos as int, n as int);
            assert(rest.subrange(m as int, rest.len() as int) =~= s@.subrange(pos + m, n as int));
        }
        pos = pos + m;
    }
    pos
}

/// The application's bundled assets.
pub struct Assets;

impl Assets {
    /// The key under which the asset at `path` is stored, so that both
    /// `logo.png` and `assets/logo.png` (or `./assets/logo.png`) name the
    /// same asset.
    pub fn asset_key(path: &str) -> (r: &str)
        ensures
            r@ == asset_key_of(path@),
    {
        proof {
            reveal_strlit("/");
            reveal_strlit(".\\");
            reveal_strlit("./");
            reveal_strlit("assets/");
            reveal_strlit("assets\\");
            assert(path@.subrange(0, path@.len() as int) =~= path@);
        }
        let n = path.unicode_len();
        let a = skip_all(path, 0, "/");
        let b = skip_all(path, a, ".\\");
        let c = skip_all(path, b, "./");
        let start = if holds_at(path, c, "assets/") {
            c + 7
        } else if holds_at(path, c, "assets\\") {
            c + 7
        } else {
            c
        };
        proof {
            let rest = path@.subrange(c as int, n as int);
            if start != c {
                assert(rest.subrange(7, rest.len() as int) =~= path@.subrange(c + 7, n as int));
            }
        }
        path.substring_char(start, n)
    }
}

} // verus!
