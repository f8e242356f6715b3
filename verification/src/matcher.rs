use vstd::prelude::*;

verus! {

/// Whether `p` is a literal leading prefix of `d`: `d` is at least as long
/// as `p` and agrees with it on the first `p.len()` characters.
pub open spec fn is_prefix_of(p: Seq<char>, d: Seq<char>) -> bool {
    p.len() <= d.len() && d.subrange(0, p.len() as int) == p
}

/// Decides whether a digest's textual form starts with the target prefix:
/// a case-sensitive comparison of exactly `prefix.len()` leading characters,
/// with no normalization.
pub fn matches(digest: &str, prefix: &str) -> (r: bool)
    ensures
        r == is_prefix_of(prefix@, digest@),
{
    let plen: usize = prefix.unicode_len();
    let dlen: usize = digest.unicode_len();
    if plen > dlen {
        return false;
    }
    let mut i: usize = 0;
    while i < plen
        invariant
            plen == prefix@.len(),
            dlen == digest@.len(),
            plen <= dlen,
            i <= plen,
            forall|j: int| 0 <= j < i ==> digest@[j] == prefix@[j],
        decreases plen - i,
    {
        if digest.get_char(i) != prefix.get_char(i) {
            proof {
                assert(digest@.subrange(0, plen as int)[i as int] == digest@[i as int]);
            }
            return false;
        }
        i = i + 1;
    }
    proof {
        assert(digest@.subrange(0, plen as int) =~= prefix@);
    }
    true
}

/// Law: the empty prefix matches every digest.
pub proof fn lemma_empty_prefix_matches(d: Seq<char>)
    ensures
        is_prefix_of(Seq::<char>::empty(), d),
{
    assert(d.subrange(0, 0) =~= Seq::<char>::empty());
}

/// Law: a prefix strictly longer than the digest never matches.
pub proof fn lemma_longer_prefix_never_matches(p: Seq<char>, d: Seq<char>)
    requires
        p.len() > d.len(),
    ensures
        !is_prefix_of(p, d),
{
}

} // verus!
