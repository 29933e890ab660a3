//! Boundary trimming of path pieces.
//!
//! A hostname, proxy prefix, sub-path or route may arrive with stray `/`
//! characters at either end. Only those boundary runs are removed; interior
//! slashes are kept verbatim, so a prefix of `a/b` later contributes the
//! path `/a/b` unchanged.

use vstd::prelude::*;

verus! {

/// The string without its leading run of `/` characters.
pub open spec fn without_leading_slashes(s: Seq<char>) -> Seq<char>
    decreases s.len(),
{
    if s.len() > 0 && s[0] == '/' {
        without_leading_slashes(s.drop_first())
    } else {
        s
    }
}

/// The string without its trailing run of `/` characters.
pub open spec fn without_trailing_slashes(s: Seq<char>) -> Seq<char>
    decreases s.len(),
{
    if s.len() > 0 && s.last() == '/' {
        without_trailing_slashes(s.drop_last())
    } else {
        s
    }
}

/// The string without its leading and trailing runs of `/` characters.
pub open spec fn trimmed(s: Seq<char>) -> Seq<char> {
    without_trailing_slashes(without_leading_slashes(s))
}

/// Removes every leading and trailing `/` from a string, keeping interior
/// slashes.
pub fn trim_slashes(s: &str) -> (r: String)
    ensures
        r@ == trimmed(s@),
{
    let n = s.unicode_len();
    proof {
        assert(s@.skip(0) =~= s@);
    }
    let mut i: usize = 0;
    while i < n && s.get_char(i) == '/'
        invariant
            n == s@.len(),
            i <= n,
            without_leading_slashes(s@) == without_leading_slashes(s@.skip(i as int)),
        decreases n - i,
    {
        proof {
            assert(s@.skip(i as int).drop_first() =~= s@.skip(i + 1 as int));
        }
        i = i + 1;
    }
    proof {
        if i < n {
            assert(without_leading_slashes(s@) =~= s@.skip(i as int));
        } else {
            assert(s@.skip(n as int) =~= Seq::<char>::empty());
        }
    }
    let mut j: usize = n;
    while j > i && s.get_char(j - 1) == '/'
        invariant
            n == s@.len(),
            i <= j <= n,
            without_leading_slashes(s@) == without_leading_slashes(s@.skip(i as int)),
            i < n ==> without_leading_slashes(s@) == s@.skip(i as int),
            i == n ==> j == n,
            without_trailing_slashes(s@.subrange(i as int, n as int)) == without_trailing_slashes(
                s@.subrange(i as int, j as int),
            ),
        decreases j,
    {
        proof {
            assert(s@.subrange(i as int, j as int).last() == s@[j - 1]);
            assert(s@.subrange(i as int, j as int).drop_last() =~= s@.subrange(
                i as int,
                j - 1 as int,
            ));
        }
        j = j - 1;
    }
    let piece = s.substring_char(i, j);
    proof {
        if i == n {
            assert(s@.subrange(i as int, j as int) =~= Seq::<char>::empty());
            assert(trimmed(s@) =~= piece@);
        } else {
            assert(s@.skip(i as int) =~= s@.subrange(i as int, n as int));
            if j > i {
                assert(s@.subrange(i as int, j as int).last() == s@[j - 1]);
            } else {
                assert(s@.subrange(i as int, j as int) =~= Seq::<char>::empty());
            }
            assert(trimmed(s@) =~= piece@);
        }
    }
    String::from_str(piece)
}

} // verus!
