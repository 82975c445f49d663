//! Small verified string utilities: prefix tests and splitting, used when
//! normalizing endpoint addresses and URLs.

use vstd::prelude::*;
use vstd::string::StrSliceExecFns;

verus! {

/// Whether `p` is a prefix of `s`.
pub open spec fn spec_has_prefix(s: Seq<char>, p: Seq<char>) -> bool {
    p.len() <= s.len() && s.take(p.len() as int) == p
}

/// The characters of `s` before its first `/`; all of `s` when it has none.
pub open spec fn spec_until_slash(s: Seq<char>) -> Seq<char>
    decreases s.len(),
{
    if s.len() == 0 {
        s
    } else if s[0] == '/' {
        Seq::empty()
    } else {
        seq![s[0]] + spec_until_slash(s.skip(1))
    }
}

/// The prefix of `s` up to an index `k` that is either the first `/` or the
/// end is exactly `spec_until_slash(s)`.
proof fn lemma_until_slash(s: Seq<char>, k: int)
    requires
        0 <= k <= s.len(),
        forall|j: int| 0 <= j < k ==> s[j] != '/',
        k < s.len() ==> s[k] == '/',
    ensures
        spec_until_slash(s) == s.take(k),
    decreases s.len(),
{
    if s.len() == 0 {
        assert(s.take(0) =~= s);
    } else if k == 0 {
        assert(s.take(0) =~= Seq::<char>::empty());
    } else {
        lemma_until_slash(s.skip(1), k - 1);
        assert(seq![s[0]] + s.skip(1).take(k - 1) =~= s.take(k));
    }
}

/// Whether `s` starts with `prefix`, character by character.
pub fn str_starts_with(s: &str, prefix: &str) -> (starts: bool)
    ensures
        starts == spec_has_prefix(s@, prefix@),
{
    let n = prefix.unicode_len();
    if s.unicode_len() < n {
        return false;
    }
    let mut i: usize = 0;
    while i < n
        invariant
            i <= n,
            n == prefix@.len(),
            n <= s@.len(),
            forall|j: int| 0 <= j < i ==> s@[j] == prefix@[j],
        decreases n - i,
    {
        if s.get_char(i) != prefix.get_char(i) {
            proof {
                assert(s@.take(n as int)[i as int] == s@[i as int]);
            }
            return false;
        }
        i = i + 1;
    }
    proof {
        assert(s@.take(n as int) =~= prefix@);
    }
    true
}

/// Whether two string slices hold the same characters.
pub fn str_eq(a: &str, b: &str) -> (equal: bool)
    ensures
        equal == (a@ == b@),
{
    if a.unicode_len() != b.unicode_len() {
        proof {
            assert(a@ != b@);
        }
        return false;
    }
    let equal = str_starts_with(a, b);
    proof {
        if equal {
            assert(a@.take(b@.len() as int) =~= a@);
        } else {
            if a@ == b@ {
                assert(a@.take(b@.len() as int) =~= b@);
            }
        }
    }
    equal
}

/// The part of `s` before its first `/`, copied out; all of `s` when it has
/// none.
pub fn until_slash(s: &str) -> (prefix: String)
    ensures
        prefix@ == spec_until_slash(s@),
{
    let n = s.unicode_len();
    let mut k: usize = 0;
    while k < n && s.get_char(k) != '/'
        invariant
            k <= n,
            n == s@.len(),
            forall|j: int| 0 <= j < k ==> s@[j] != '/',
        decreases n - k,
    {
        k = k + 1;
    }
    proof {
        lemma_until_slash(s@, k as int);
    }
    let prefix = s.substring_char(0, k);
    proof {
        assert(prefix@ =~= s@.take(k as int));
    }
    <String as vstd::string::StringExecFns>::from_str(prefix)
}

} // verus!
