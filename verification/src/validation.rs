//! Structural validation of inbound account requests: the email grammar
//! and the minimum password length.

use vstd::prelude::*;
use vstd::string::StrSliceExecFns;

verus! {

/// A well-formed domain part: at least three characters, an interior
/// dot, no leading or trailing dot, and no at sign.
pub open spec fn valid_domain(d: Seq<char>) -> bool {
    &&& d.len() >= 3
    &&& (forall|j: int| 0 <= j < d.len() ==> d[j] != '@')
    &&& d[0] != '.'
    &&& d[d.len() - 1] != '.'
    &&& (exists|j: int| 0 < j < d.len() - 1 && d[j] == '.')
}

/// A well-formed email address: a non-empty local part, a single at
/// sign, and a well-formed domain after it. Deliberately stricter than
/// the HTML5-style rules in one respect — a dotless domain such as a
/// bare host name is rejected — and agnostic about the characters of
/// the local part.
pub open spec fn valid_email(s: Seq<char>) -> bool {
    exists|k: int|
        {
            &&& 1 <= k < s.len()
            &&& #[trigger] s[k] == '@'
            &&& (forall|j: int| 0 <= j < k ==> s[j] != '@')
            &&& valid_domain(s.subrange(k + 1, s.len() as int))
        }
}

/// A password long enough to accept: at least eight characters.
pub open spec fn valid_password(p: Seq<char>) -> bool {
    p.len() >= 8
}

/// Checks the password length rule.
pub fn check_password(p: &str) -> (r: bool)
    ensures
        r == valid_password(p@),
{
    p.unicode_len() >= 8
}

/// Checks the email grammar.
pub fn check_email(s: &str) -> (r: bool)
    ensures
        r == valid_email(s@),
{
    let n = s.unicode_len();
    let mut k: usize = 0;
    while k < n && s.get_char(k) != '@'
        invariant
            n == s@.len(),
            k <= n,
            forall|j: int| 0 <= j < k ==> s@[j] != '@',
        decreases n - k,
    {
        k = k + 1;
    }
    if k == n {
        // no at sign anywhere
        return false;
    }
    if k == 0 {
        // empty local part; the first at sign is at the front
        return false;
    }
    // the domain runs from k + 1 to n
    let ghost d = s@.subrange(k + 1, n as int);
    if n - k - 1 < 3 {
        assert(!valid_email(s@)) by { lemma_unique_at(s@, k as int); }
        return false;
    }
    // no second at sign
    let mut i: usize = k + 1;
    while i < n && s.get_char(i) != '@'
        invariant
            n == s@.len(),
            k + 1 <= i <= n,
            forall|j: int| k < j < i ==> s@[j] != '@',
        decreases n - i,
    {
        i = i + 1;
    }
    if i < n {
        assert(s@[i as int] == '@' && d[i - k - 1] == '@');
        assert(!valid_email(s@)) by { lemma_unique_at(s@, k as int); }
        return false;
    }
    if s.get_char(k + 1) == '.' {
        assert(d[0] == '.');
        assert(!valid_email(s@)) by { lemma_unique_at(s@, k as int); }
        return false;
    }
    if s.get_char(n - 1) == '.' {
        assert(d[d.len() - 1] == '.');
        assert(!valid_email(s@)) by { lemma_unique_at(s@, k as int); }
        return false;
    }
    // an interior dot in the domain
    let mut t: usize = k + 2;
    while t < n - 1 && s.get_char(t) != '.'
        invariant
            n == s@.len(),
            k + 2 <= t <= n - 1,
            k + 1 < n,
            forall|j: int| k + 1 < j < t ==> s@[j] != '.',
        decreases n - t,
    {
        t = t + 1;
    }
    if t == n - 1 {
        assert forall|j: int| !(0 < j < d.len() - 1 && d[j] == '.') by {
            if 0 < j < d.len() - 1 {
                assert(d[j] == s@[k + 1 + j]);
            }
        }
        assert(!valid_email(s@)) by { lemma_unique_at(s@, k as int); }
        return false;
    }
    assert(d[t - k - 1] == s@[t as int] && 0 < t - k - 1 < d.len() - 1);
    assert(valid_domain(d));
    assert(valid_email(s@));
    true
}

/// In a string whose first at sign sits at `k`, `k` is the only index a
/// witness for the email grammar can use.
proof fn lemma_unique_at(s: Seq<char>, k: int)
    requires
        0 <= k < s.len(),
        s[k] == '@',
        forall|j: int| 0 <= j < k ==> s[j] != '@',
    ensures
        valid_email(s) ==> (1 <= k < s.len() && (forall|j: int| 0 <= j < k ==> s[j] != '@')
            && valid_domain(s.subrange(k + 1, s.len() as int))),
{
    if valid_email(s) {
        let w = choose|w: int|
            {
                &&& 1 <= w < s.len()
                &&& #[trigger] s[w] == '@'
                &&& (forall|j: int| 0 <= j < w ==> s[j] != '@')
                &&& valid_domain(s.subrange(w + 1, s.len() as int))
            };
        if w < k {
            assert(s[w] != '@');
        }
        if w > k {
            assert(s[k] != '@');
        }
        assert(w == k);
    }
}

} // verus!
