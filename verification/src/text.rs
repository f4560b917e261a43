//! Character-level helpers for the gateway: the case-insensitive source
//! extension check and substring search over strings.

use vstd::prelude::*;
use vstd::string::*;

verus! {

/// A filename is accepted as a drawing upload when its last four characters
/// are `.dwg`, compared case-insensitively (the uploaded filename may use
/// any mix of upper and lower case in the extension).
pub open spec fn is_dwg_name(s: Seq<char>) -> bool {
    &&& s.len() >= 4
    &&& s[s.len() - 4] == '.'
    &&& (s[s.len() - 3] == 'd' || s[s.len() - 3] == 'D')
    &&& (s[s.len() - 2] == 'w' || s[s.len() - 2] == 'W')
    &&& (s[s.len() - 1] == 'g' || s[s.len() - 1] == 'G')
}

/// Decides whether `name` ends with the `.dwg` extension, ignoring case.
pub fn has_dwg_extension(name: &str) -> (r: bool)
    ensures
        r == is_dwg_name(name@),
{
    let len: usize = name.unicode_len();
    if len < 4 {
        return false;
    }
    let dot = name.get_char(len - 4);
    let d = name.get_char(len - 3);
    let w = name.get_char(len - 2);
    let g = name.get_char(len - 1);
    dot == '.' && (d == 'd' || d == 'D') && (w == 'w' || w == 'W') && (g == 'g' || g == 'G')
}

/// The needle `n` occurs in `h` starting at position `i`.
pub open spec fn match_at(h: Seq<char>, n: Seq<char>, i: int) -> bool {
    &&& 0 <= i
    &&& i + n.len() <= h.len()
    &&& h.subrange(i, i + n.len()) == n
}

/// The needle `n` occurs somewhere in `h` as a contiguous run.
pub open spec fn contains_chars(h: Seq<char>, n: Seq<char>) -> bool {
    exists|i: int| match_at(h, n, i)
}

/// Checks whether `n` occurs in `h` starting exactly at position `i`.
fn matches_at(h: &str, n: &str, i: usize, h_len: usize, n_len: usize) -> (r: bool)
    requires
        h_len == h@.len(),
        n_len == n@.len(),
        i + n_len <= h_len,
    ensures
        r == match_at(h@, n@, i as int),
{
    let mut j: usize = 0;
    while j < n_len
        invariant
            h_len == h@.len(),
            n_len == n@.len(),
            i + n_len <= h_len,
            j <= n_len,
            forall|t: int| 0 <= t < j ==> h@[i + t] == n@[t],
        decreases n_len - j,
    {
        if h.get_char(i + j) != n.get_char(j) {
            proof {
                let s = h@.subrange(i as int, i + n@.len());
                assert(s[j as int] == h@[i + j]);
                assert(s != n@);
            }
            return false;
        }
        j += 1;
    }
    proof {
        assert(h@.subrange(i as int, i + n@.len()) =~= n@);
    }
    true
}

/// Decides whether the string `n` occurs as a substring of `h`.
pub fn str_contains(h: &str, n: &str) -> (r: bool)
    ensures
        r == contains_chars(h@, n@),
{
    let h_len: usize = h.unicode_len();
    let n_len: usize = n.unicode_len();
    if n_len > h_len {
        return false;
    }
    if n_len == 0 {
        proof {
            assert(h@.subrange(0, 0) =~= n@);
            assert(match_at(h@, n@, 0));
        }
        return true;
    }
    let mut i: usize = 0;
    while i <= h_len - n_len
        invariant
            h_len == h@.len(),
            n_len == n@.len(),
            1 <= n_len <= h_len,
            i <= h_len - n_len + 1,
            forall|k: int| 0 <= k < i ==> !match_at(h@, n@, k),
        decreases h_len - n_len + 1 - i,
    {
        if matches_at(h, n, i, h_len, n_len) {
            return true;
        }
        i += 1;
    }
    proof {
        assert forall|k: int| !match_at(h@, n@, k) by {
            if 0 <= k < i {
            } else {
            }
        }
    }
    false
}

/// A sequence that ends in `b` contains `b`: the tail of `a + b` is a
/// witness. Stated so that a diagnostic built as a fixed prefix followed
/// by captured tool output is known to contain that output.
pub proof fn lemma_concat_contains_suffix(a: Seq<char>, b: Seq<char>)
    ensures
        contains_chars(a + b, b),
{
    let h = a + b;
    assert(h.subrange(a.len() as int, a.len() + b.len() as int) =~= b);
    assert(match_at(h, b, a.len() as int));
}

} // verus!
