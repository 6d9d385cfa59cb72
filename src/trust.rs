use vstd::prelude::*;

use crate::purl::PackageId;

verus! {

/// `t` occurs in `s` as a contiguous run of characters.
pub open spec fn has_substring(s: Seq<char>, t: Seq<char>) -> bool {
    exists|i: int| 0 <= i && i + t.len() <= s.len() && #[trigger] s.subrange(i, i + t.len()) == t
}

/// The provisional trust rule: a version that mentions "redhat", or the
/// namespace "redhat" itself. Case matters, and an absent part never counts.
pub open spec fn trusted_by_rule(
    namespace: Option<Seq<char>>,
    version: Option<Seq<char>>,
) -> bool {
    namespace == Some("redhat"@) || (version matches Some(v) && has_substring(v, "redhat"@))
}

/// Whether `t` occurs in `s`.
pub fn contains_substring(s: &str, t: &str) -> (r: bool)
    ensures
        r == has_substring(s@, t@),
{
    let n = s.unicode_len();
    let m = t.unicode_len();
    if m > n {
        assert(!has_substring(s@, t@));
        return false;
    }
    let mut i: usize = 0;
    while i <= n - m
        invariant
            n == s@.len(),
            m == t@.len(),
            m <= n,
            i <= n - m + 1,
            forall|k: int| 0 <= k < i ==> #[trigger] s@.subrange(k, k + m) != t@,
        decreases n - m + 1 - i,
    {
        let mut j: usize = 0;
        let mut same = true;
        while j < m
            invariant
                n == s@.len(),
                m == t@.len(),
                i + m <= n,
                j <= m,
                same == (forall|q: int| 0 <= q < j ==> s@[i + q] == t@[q]),
            decreases m - j,
        {
            if s.get_char(i + j) != t.get_char(j) {
                same = false;
            }
            j = j + 1;
        }
        if same {
            assert(s@.subrange(i as int, i + m) =~= t@);
            return true;
        }
        assert(s@.subrange(i as int, i + m) != t@) by {
            if s@.subrange(i as int, i + m) == t@ {
                assert forall|q: int| 0 <= q < m implies s@[i + q] == t@[q] by {
                    assert(s@.subrange(i as int, i + m)[q] == s@[i + q]);
                }
            }
        }
        i = i + 1;
    }
    assert(!has_substring(s@, t@)) by {
        if has_substring(s@, t@) {
            let k = choose|k: int| 0 <= k && k + t@.len() <= s@.len() && #[trigger] s@.subrange(k, k + t@.len()) == t@;
            assert(s@.subrange(k, k + m) == t@);
        }
    }
    false
}

/// The trust verdict for a parsed package URL. The rule is provisional and
/// kept in this one place so that it can be replaced on its own.
pub fn is_trusted(id: &PackageId) -> (r: bool)
    ensures
        r == trusted_by_rule(id.parts().1, id.parts().3),
{
    let redhat = String::from_str("redhat");
    proof {
        reveal_strlit("redhat");
    }
    let by_namespace = match &id.namespace {
        Some(ns) => *ns == redhat,
        None => false,
    };
    if by_namespace {
        return true;
    }
    match &id.version {
        Some(v) => contains_substring(v.as_str(), "redhat"),
        None => false,
    }
}

}
