//! Final path component and extension, derived purely from the path string.
//!
//! The final component is what remains after trailing separators are dropped:
//! `"."` components are skipped, and there is no component at all for an
//! empty path, a bare root, or a path that ends in `".."`. The extension is
//! the suffix of the component after its last `'.'`, except that a leading
//! `'.'` (as in a hidden file) does not start an extension.

use vstd::prelude::*;
use vstd::string::*;

verus! {

/// Start of the component of `s` that ends right before position `e`: the
/// least index reached from `e` by stepping left over non-separator
/// characters.
pub open spec fn start_of_last(s: Seq<char>, e: int) -> int
    decreases e,
{
    if e <= 0 {
        0
    } else if s[e - 1] == '/' {
        e
    } else {
        start_of_last(s, e - 1)
    }
}

/// The final component of `s[0..e]`: trailing separators and `"."`
/// components are skipped; a `".."` component, like a bare root or an empty
/// path, yields no component at all (the empty sequence).
pub open spec fn spec_name_in(s: Seq<char>, e: int) -> Seq<char>
    recommends
        0 <= e <= s.len(),
    decreases e,
{
    if e <= 0 {
        Seq::empty()
    } else if s[e - 1] == '/' {
        spec_name_in(s, e - 1)
    } else {
        let k = start_of_last(s, e);
        if k == e - 1 && s[k] == '.' {
            spec_name_in(s, e - 1)
        } else if k == e - 2 && s[k] == '.' && s[k + 1] == '.' {
            Seq::empty()
        } else {
            s.subrange(k, e)
        }
    }
}

/// The final component of the whole path `s`.
pub open spec fn spec_file_name(s: Seq<char>) -> Seq<char> {
    spec_name_in(s, s.len() as int)
}

/// Last index of `'.'` in `s[0..e]`, or `-1` if there is none.
pub open spec fn last_dot(s: Seq<char>, e: int) -> int
    decreases e,
{
    if e <= 0 {
        -1
    } else if s[e - 1] == '.' {
        e - 1
    } else {
        last_dot(s, e - 1)
    }
}

/// Extension of the component `name`: the suffix after the last `'.'`,
/// empty when there is no `'.'` or when the only `'.'` is the leading one.
pub open spec fn spec_extension(name: Seq<char>) -> Seq<char> {
    let j = last_dot(name, name.len() as int);
    if j <= 0 {
        Seq::empty()
    } else {
        name.subrange(j + 1, name.len() as int)
    }
}

/// Character bounds of the final component of `path[0..e]`: returns
/// `(start, end)` such that `path[start..end]` is that component (both zero
/// when there is none).
fn name_bounds(path: &str, e: usize) -> (r: (usize, usize))
    requires
        e <= path@.len(),
    ensures
        r.0 <= r.1 <= path@.len(),
        path@.subrange(r.0 as int, r.1 as int) == spec_name_in(path@, e as int),
    decreases e,
{
    let mut e2: usize = e;
    while e2 > 0 && path.get_char(e2 - 1) == '/'
        invariant
            e2 <= e <= path@.len(),
            spec_name_in(path@, e as int) == spec_name_in(path@, e2 as int),
        decreases e2,
    {
        e2 = e2 - 1;
    }
    if e2 == 0 {
        proof {
            assert(path@.subrange(0, 0) =~= Seq::<char>::empty());
        }
        return (0, 0);
    }
    let mut k: usize = e2;
    while k > 0 && path.get_char(k - 1) != '/'
        invariant
            k <= e2 <= path@.len(),
            e2 > 0,
            path@[e2 as int - 1] != '/',
            start_of_last(path@, e2 as int) == start_of_last(path@, k as int),
        decreases k,
    {
        k = k - 1;
    }
    proof {
        assert(start_of_last(path@, e2 as int) == k as int);
        assert(k < e2);
    }
    if e2 - k == 1 && path.get_char(k) == '.' {
        name_bounds(path, e2 - 1)
    } else if e2 - k == 2 && path.get_char(k) == '.' && path.get_char(k + 1) == '.' {
        proof {
            assert(path@.subrange(0, 0) =~= Seq::<char>::empty());
        }
        (0, 0)
    } else {
        (k, e2)
    }
}

/// The final component of `path`, as a fresh string.
pub fn file_name_of(path: &str) -> (r: String)
    ensures
        r@ == spec_file_name(path@),
{
    let n: usize = path.unicode_len();
    let bounds = name_bounds(path, n);
    let part = path.substring_char(bounds.0, bounds.1);
    part.to_owned()
}

/// The extension of the component `name`, as a fresh string.
pub fn extension_of_name(name: &str) -> (r: String)
    ensures
        r@ == spec_extension(name@),
{
    let n: usize = name.unicode_len();
    let mut e: usize = n;
    while e > 0 && name.get_char(e - 1) != '.'
        invariant
            e <= n,
            n == name@.len(),
            last_dot(name@, n as int) == last_dot(name@, e as int),
        decreases e,
    {
        e = e - 1;
    }
    if e <= 1 {
        String::new()
    } else {
        let part = name.substring_char(e, n);
        part.to_owned()
    }
}

} // verus!
