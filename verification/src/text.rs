use vstd::prelude::*;

verus! {

/// The rest of `s` after `prefix`, when `s` starts with `prefix`.
pub open spec fn strip_prefix_spec(s: Seq<char>, prefix: Seq<char>) -> Option<Seq<char>> {
    if prefix.len() <= s.len() && s.subrange(0, prefix.len() as int) == prefix {
        Some(s.subrange(prefix.len() as int, s.len() as int))
    } else {
        None
    }
}

/// Removes `prefix` from the front of `s`; `None` when `s` does not start with it.
pub fn strip_prefix<'a>(s: &'a str, prefix: &str) -> (rest: Option<&'a str>)
    ensures
        match rest {
            Some(r) => strip_prefix_spec(s@, prefix@) == Some(r@),
            None => strip_prefix_spec(s@, prefix@) is None,
        },
{
    let n = prefix.unicode_len();
    let m = s.unicode_len();
    if n > m {
        return None;
    }
    let mut i: usize = 0;
    while i < n
        invariant
            n == prefix@.len(),
            m == s@.len(),
            n <= m,
            i <= n,
            forall|j: int| 0 <= j < i ==> s@[j] == prefix@[j],
        decreases n - i,
    {
        if s.get_char(i) != prefix.get_char(i) {
            assert(s@.subrange(0, n as int)[i as int] != prefix@[i as int]);
            return None;
        }
        i = i + 1;
    }
    assert(s@.subrange(0, n as int) =~= prefix@);
    Some(s.substring_char(n, m))
}

/// Stripping a prefix that was just put in front gives back the rest.
pub proof fn law_strip_added_prefix(prefix: Seq<char>, rest: Seq<char>)
    ensures
        strip_prefix_spec(prefix + rest, prefix) == Some(rest),
{
    assert((prefix + rest).subrange(0, prefix.len() as int) =~= prefix);
    assert((prefix + rest).subrange(prefix.len() as int, (prefix + rest).len() as int) =~= rest);
}

/// A text yields a rest exactly when it is the prefix followed by that rest.
pub proof fn law_strip_prefix_spec(s: Seq<char>, prefix: Seq<char>, rest: Seq<char>)
    ensures
        strip_prefix_spec(s, prefix) == Some(rest) <==> s == prefix + rest,
{
    if s == prefix + rest {
        law_strip_added_prefix(prefix, rest);
    }
    if strip_prefix_spec(s, prefix) == Some(rest) {
        assert(s =~= prefix + rest);
    }
}

/// The text `head` followed by `tail`.
pub fn join(head: &str, tail: &str) -> (s: String)
    ensures
        s@ == head@ + tail@,
{
    let mut s = String::from_str(head);
    s.append(tail);
    s
}

/// Whether two byte strings are equal.
pub fn bytes_equal(a: &[u8], b: &[u8]) -> (eq: bool)
    ensures
        eq == (a@ == b@),
{
    if a.len() != b.len() {
        return false;
    }
    let n = a.len();
    for i in 0..n
        invariant
            n == a@.len(),
            n == b@.len(),
            forall|j: int| 0 <= j < i ==> a@[j] == b@[j],
    {
        if a[i] != b[i] {
            return false;
        }
    }
    assert(a@ =~= b@);
    true
}

} // verus!
