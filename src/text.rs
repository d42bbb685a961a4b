use vstd::prelude::*;
use vstd::string::StrSliceExecFns;

verus! {

/// Whether `s` begins with `prefix`.
pub open spec fn has_prefix(s: Seq<char>, prefix: Seq<char>) -> bool {
    prefix.len() <= s.len() && s.take(prefix.len() as int) == prefix
}

/// `k` is where the path of a request target ends: no `?` comes before it, and
/// it is either the end of the target or the first `?`.
pub open spec fn is_path_end(t: Seq<char>, k: int) -> bool {
    &&& 0 <= k <= t.len()
    &&& forall|j: int| 0 <= j < k ==> t[j] != '?'
    &&& (k == t.len() || t[k] == '?')
}

/// Length of the path of a request target: everything before the first `?`.
pub open spec fn path_end(t: Seq<char>) -> nat
    decreases t.len(),
{
    if t.len() == 0 || t[0] == '?' {
        0
    } else {
        1 + path_end(t.drop_first())
    }
}

/// The path of a request target, without its query string.
pub open spec fn target_path(t: Seq<char>) -> Seq<char> {
    t.take(path_end(t) as int)
}

/// The position that `is_path_end` describes is the one `path_end` computes.
pub proof fn lemma_path_end_unique(t: Seq<char>, k: int)
    requires
        is_path_end(t, k),
    ensures
        path_end(t) == k,
    decreases t.len(),
{
    if t.len() > 0 && t[0] != '?' {
        let u = t.drop_first();
        assert(is_path_end(u, k - 1)) by {
            assert forall|j: int| 0 <= j < k - 1 implies u[j] != '?' by {
                assert(u[j] == t[j + 1]);
            }
        }
        lemma_path_end_unique(u, k - 1);
    }
}

/// Whether `s` begins with `prefix`.
pub fn starts_with(s: &str, prefix: &str) -> (r: bool)
    ensures
        r == has_prefix(s@, prefix@),
{
    let n = s.unicode_len();
    let m = prefix.unicode_len();
    if m > n {
        return false;
    }
    let mut i: usize = 0;
    while i < m
        invariant
            m == prefix@.len(),
            n == s@.len(),
            m <= n,
            i <= m,
            forall|j: int| 0 <= j < i ==> s@[j] == prefix@[j],
        decreases m - i,
    {
        if s.get_char(i) != prefix.get_char(i) {
            assert(s@.take(m as int)[i as int] != prefix@[i as int]);
            return false;
        }
        i = i + 1;
    }
    assert(s@.take(m as int) =~= prefix@);
    true
}

/// Whether `s` and `t` hold the same characters.
pub fn same_text(s: &str, t: &str) -> (r: bool)
    ensures
        r == (s@ == t@),
{
    if s.unicode_len() != t.unicode_len() {
        return false;
    }
    let r = starts_with(s, t);
    proof {
        assert(s@.len() == t@.len() ==> s@ =~= s@.take(t@.len() as int));

    }
    r
}

/// Whether the character `c` occurs in `s`.
pub fn contains_char(s: &str, c: char) -> (r: bool)
    ensures
        r == s@.contains(c),
{
    let n = s.unicode_len();
    let mut i: usize = 0;
    while i < n
        invariant
            n == s@.len(),
            i <= n,
            forall|j: int| 0 <= j < i ==> s@[j] != c,
        decreases n - i,
    {
        if s.get_char(i) == c {
            return true;
        }
        i = i + 1;
    }
    false
}

/// The path of a request target: the part before the first `?`.
pub fn path_of(target: &str) -> (r: &str)
    ensures
        r@ == target_path(target@),
{
    let n = target.unicode_len();
    let mut i: usize = 0;
    while i < n && target.get_char(i) != '?'
        invariant
            n == target@.len(),
            i <= n,
            forall|j: int| 0 <= j < i ==> target@[j] != '?',
        decreases n - i,
    {
        i = i + 1;
    }
    proof {
        lemma_path_end_unique(target@, i as int);
    }
    target.substring_char(0, i)
}

} // verus!
