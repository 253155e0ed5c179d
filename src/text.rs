use vstd::prelude::*;

verus! {

/// `s` ends with `suffix`.
pub open spec fn ends_with(s: Seq<char>, suffix: Seq<char>) -> bool {
    suffix.len() <= s.len() && s.subrange(s.len() - suffix.len(), s.len() as int) == suffix
}

/// Relies on `String::push`: the character is appended at the end.
#[verifier::external_body]
pub(crate) fn push_char(s: &mut String, c: char)
    ensures
        final(s)@ == old(s)@.push(c),
{
    s.push(c);
}

/// Position of the last `/` in `s`, or -1 where there is none.
pub open spec fn last_slash(s: Seq<char>) -> int
    decreases s.len(),
{
    if s.len() == 0 {
        -1
    } else if s.last() == '/' {
        s.len() - 1
    } else {
        last_slash(s.drop_last())
    }
}

/// The final component of a path: what follows its last `/`.
pub open spec fn file_name(s: Seq<char>) -> Seq<char> {
    s.subrange(last_slash(s) + 1, s.len() as int)
}

pub proof fn lemma_last_slash(s: Seq<char>, i: int)
    requires
        0 <= i <= s.len(),
        forall|k: int| i <= k < s.len() ==> s[k] != '/',
        i == 0 || s[i - 1] == '/',
    ensures
        last_slash(s) == i - 1,
    decreases s.len(),
{
    if s.len() > i {
        lemma_last_slash(s.drop_last(), i);
    }
}

pub proof fn lemma_last_slash_bounds(s: Seq<char>)
    ensures
        -1 <= last_slash(s) < s.len(),
        last_slash(s) >= 0 ==> s[last_slash(s)] == '/',
        forall|k: int| last_slash(s) < k < s.len() ==> s[k] != '/',
    decreases s.len(),
{
    if s.len() > 0 && s.last() != '/' {
        let t = s.drop_last();
        lemma_last_slash_bounds(t);
        assert forall|k: int| last_slash(s) < k < s.len() implies s[k] != '/' by {
            if k < t.len() {
                assert(s[k] == t[k]);
            }
        }
    }
}

/// A suffix without `/` ends a path exactly where it ends the path's final
/// component.
pub proof fn lemma_file_name_ends_with(s: Seq<char>, suffix: Seq<char>)
    requires
        forall|k: int| 0 <= k < suffix.len() ==> suffix[k] != '/',
    ensures
        ends_with(file_name(s), suffix) <==> ends_with(s, suffix),
{
    lemma_last_slash_bounds(s);
    let l = last_slash(s);
    let f = file_name(s);
    if ends_with(s, suffix) {
        if l >= s.len() - suffix.len() {
            assert(s.subrange(s.len() - suffix.len(), s.len() as int)[l - (s.len() - suffix.len())]
                == s[l]);
        }
        assert(f.subrange(f.len() - suffix.len(), f.len() as int) =~= s.subrange(
            s.len() - suffix.len(), s.len() as int));
    }
    if ends_with(f, suffix) {
        assert(f.subrange(f.len() - suffix.len(), f.len() as int) =~= s.subrange(
            s.len() - suffix.len(), s.len() as int));
    }
}

/// The final component of the path `s`.
pub fn file_name_of(s: &str) -> (r: &str)
    ensures
        r@ == file_name(s@),
{
    let n = s.unicode_len();
    let mut i: usize = n;
    while i > 0 && s.get_char(i - 1) != '/'
        invariant
            n == s@.len(),
            i <= n,
            forall|k: int| i <= k < n ==> s@[k] != '/',
        decreases i,
    {
        i -= 1;
    }
    proof {
        lemma_last_slash(s@, i as int);
    }
    s.substring_char(i, n)
}

/// Whether `s` ends with `suffix`.
pub fn has_suffix(s: &str, suffix: &str) -> (r: bool)
    ensures
        r == ends_with(s@, suffix@),
{
    let n = s.unicode_len();
    let m = suffix.unicode_len();
    if m > n {
        return false;
    }
    let mut k: usize = 0;
    while k < m
        invariant
            n == s@.len(),
            m == suffix@.len(),
            m <= n,
            k <= m,
            forall|j: int| 0 <= j < k ==> s@[n - m + j] == suffix@[j],
        decreases m - k,
    {
        if s.get_char(n - m + k) != suffix.get_char(k) {
            assert(s@.subrange(n - m, n as int)[k as int] != suffix@[k as int]);
            return false;
        }
        k += 1;
    }
    assert(s@.subrange(n - m, n as int) =~= suffix@);
    true
}

} // verus!
