//! Request-path normalization: the object compared against policy is the
//! inbound path with any query string stripped, so a caller cannot vary the
//! object by adding query parameters.

use vstd::prelude::*;

verus! {

/// Index of the first `'?'` in `s`, or `s.len()` when there is none.
pub open spec fn query_start(s: Seq<char>) -> int
    decreases s.len(),
{
    if s.len() == 0 {
        0
    } else if s[0] == '?' {
        0
    } else {
        1 + query_start(s.drop_first())
    }
}

/// The path with everything from the first `'?'` on removed.
pub open spec fn strip_query(s: Seq<char>) -> Seq<char> {
    s.take(query_start(s))
}

/// `query_start` is the only index with its characterization: any cut `k`
/// with no `'?'` before it and a `'?'` (or the end) at it is `query_start`.
pub proof fn lemma_query_start_is(s: Seq<char>, k: int)
    requires
        0 <= k <= s.len(),
        forall|j: int| 0 <= j < k ==> s[j] != '?',
        k < s.len() ==> s[k] == '?',
    ensures
        query_start(s) == k,
    decreases s.len(),
{
    if s.len() != 0 && s[0] != '?' {
        assert(k >= 1);
        lemma_query_start_is(s.drop_first(), k - 1);
    }
}

/// Path normalization law: a path with a query string appended derives the
/// same object as the bare path without one, which is returned whole — so
/// the object compared against policy never varies on query parameters.
pub proof fn lemma_object_ignores_query(base: Seq<char>, query: Seq<char>)
    requires
        forall|j: int| 0 <= j < base.len() ==> base[j] != '?',
    ensures
        strip_query(base + seq!['?'] + query) == base,
        strip_query(base) == base,
{
    let s = base + seq!['?'] + query;
    assert(s[base.len() as int] == '?');
    assert forall|j: int| 0 <= j < base.len() implies s[j] != '?' by {
        assert(s[j] == base[j]);
    }
    lemma_query_start_is(s, base.len() as int);
    assert(s.take(base.len() as int) =~= base);
    lemma_query_start_is(base, base.len() as int);
    assert(base.take(base.len() as int) =~= base);
}

/// Strip any query string from the path: everything from the first `'?'` on
/// is removed, and a path without `'?'` is returned whole.
pub fn strip_query_string(path: &str) -> (r: String)
    ensures
        r@ == strip_query(path@),
{
    let n = path.unicode_len();
    let mut qpos: usize = n;
    let mut i: usize = 0;
    while i < n
        invariant
            i <= n,
            n == path@.len(),
            qpos == n || (qpos < i && path@[qpos as int] == '?'),
            forall|j: int| 0 <= j < i && j < qpos ==> path@[j] != '?',
        decreases n - i,
    {
        if qpos == n && path.get_char(i) == '?' {
            qpos = i;
        }
        i += 1;
    }
    proof {
        lemma_query_start_is(path@, qpos as int);
    }
    let pre = path.substring_char(0, qpos);
    pre.to_owned()
}

} // verus!
