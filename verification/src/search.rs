use vstd::prelude::*;

use crate::candidate::{build_candidate, candidate};
use crate::digest::{digest_hex, hex_of, sha3_512_of};
use crate::matcher::is_prefix_of;
use crate::nonce::NonceCounter;

verus! {

/// Whether `input` wins against `prefix`: it is the prepend string followed
/// by some nonce's decimal form, and the hex form of its SHA3-512 digest
/// starts with the prefix.
pub open spec fn winning_input(input: Seq<char>, prepend: Seq<char>, prefix: Seq<char>) -> bool {
    &&& (exists|n: nat| input == candidate(prepend, n))
    &&& is_prefix_of(prefix, hex_of(sha3_512_of(input)))
}

/// Whether nonce `n` loses against `prefix`: the hex form of the digest of
/// the candidate built from it does not start with the prefix.
pub open spec fn nonce_fails(prepend: Seq<char>, prefix: Seq<char>, n: u64) -> bool {
    !is_prefix_of(prefix, hex_of(sha3_512_of(candidate(prepend, n as nat))))
}

/// The lane (prefix index) that a nonce is tested against when the lanes are
/// visited round-robin from counter position `start`.
pub open spec fn lane_of(n: int, start: int, lanes: int) -> int
    recommends
        0 < lanes,
        start <= n,
{
    (n - start) % lanes
}

/// One attempt by a lane: draw a nonce, build the candidate input, hash it,
/// and test the hex digest against the lane's prefix. The attempt succeeds
/// exactly when matching is asked for and the drawn nonce does not fail the
/// prefix; in dry-run mode the candidate is still hashed but never matched.
pub fn attempt(
    counter: &mut NonceCounter,
    prepend: &str,
    prefix: &str,
    should_find_match: bool,
) -> (r: Option<String>)
    requires
        old(counter).draws() <= u64::MAX as nat,
    ensures
        final(counter).draws() == old(counter).draws() + 1,
        !should_find_match ==> r is None,
        r matches Some(input) ==> {
            &&& should_find_match
            &&& input@ == candidate(prepend@, old(counter).draws())
            &&& !nonce_fails(prepend@, prefix@, old(counter).draws() as u64)
        },
        should_find_match && r is None ==> nonce_fails(
            prepend@,
            prefix@,
            old(counter).draws() as u64,
        ),
{
    let nonce = counter.draw();
    let input = build_candidate(prepend, nonce);
    let hash = digest_hex(input.as_str());
    proof {
        assert(nonce == old(counter).draws() as u64);
    }
    if should_find_match && crate::matcher::matches(hash.as_str(), prefix) {
        Some(input)
    } else {
        None
    }
}

/// The scheduler: visits the prefixes round-robin over a shared nonce
/// counter, one attempt per lane per round, and reports the first winning
/// input with its prefix's index.
///
/// Because the counter is shared, no two attempts ever test the same
/// candidate, and every lane keeps receiving attempts as long as the search
/// runs: nonce `n` is tested against lane `(n - start) % lanes`, where
/// `start` is the counter's position when the scheduler began. In dry-run
/// mode there is a single round -- exactly one attempt per lane -- and no
/// match is ever reported. In match mode, absence is reported only once the
/// entire nonce space is spent and every drawn nonce has failed its lane's
/// prefix.
pub fn run_lanes(
    counter: &mut NonceCounter,
    prefixes: &Vec<String>,
    prepend: &str,
    should_find_match: bool,
) -> (r: Option<(String, usize)>)
    requires
        old(counter).draws() + prefixes@.len() <= u64::MAX as nat + 1,
    ensures
        !should_find_match ==> r is None && final(counter).draws() == old(counter).draws()
            + prefixes@.len(),
        prefixes@.len() == 0 ==> r is None && final(counter).draws() == old(counter).draws(),
        r matches Some(pair) ==> {
            &&& should_find_match
            &&& (pair.1 as int) < prefixes@.len()
            &&& winning_input(pair.0@, prepend@, prefixes@[pair.1 as int]@)
        },
        should_find_match && prefixes@.len() > 0 && r is None ==> {
            &&& final(counter).draws() == u64::MAX as nat + 1
            &&& forall|n: u64|
                old(counter).draws() <= n as nat ==> nonce_fails(
                    prepend@,
                    prefixes@[lane_of(
                        n as int,
                        old(counter).draws() as int,
                        prefixes@.len() as int,
                    )]@,
                    n,
                )
        },
{
    let lanes = prefixes.len();
    if lanes == 0 {
        return None;
    }
    proof {
        vstd::arithmetic::div_mod::lemma_small_mod(0, lanes as nat);
    }
    loop
        invariant
            lanes == prefixes@.len(),
            0 < lanes,
            old(counter).draws() + lanes <= u64::MAX as nat + 1,
            old(counter).draws() <= counter.draws(),
            counter.draws() <= u64::MAX as nat + 1,
            (counter.draws() as int - old(counter).draws() as int) % (lanes as int) == 0,
            !should_find_match ==> counter.draws() == old(counter).draws(),
            should_find_match ==> forall|n: u64|
                old(counter).draws() <= n as nat && (n as nat) < counter.draws() ==> nonce_fails(
                    prepend@,
                    prefixes@[lane_of(n as int, old(counter).draws() as int, lanes as int)]@,
                    n,
                ),
        decreases u64::MAX as nat + 1 - counter.draws(),
    {
        let ghost round_start = counter.draws();
        let mut i: usize = 0;
        while i < lanes
            invariant
                lanes == prefixes@.len(),
                0 < lanes,
                i <= lanes,
                old(counter).draws() + lanes <= u64::MAX as nat + 1,
                old(counter).draws() <= round_start,
                counter.draws() == round_start + i,
                counter.draws() <= u64::MAX as nat + 1,
                (round_start as int - old(counter).draws() as int) % (lanes as int) == 0,
                !should_find_match ==> round_start == old(counter).draws(),
                should_find_match ==> forall|n: u64|
                    old(counter).draws() <= n as nat && (n as nat) < counter.draws() ==> nonce_fails(
                        prepend@,
                        prefixes@[lane_of(n as int, old(counter).draws() as int, lanes as int)]@,
                        n,
                    ),
            decreases lanes - i,
        {
            if counter.exhausted() {
                return None;
            }
            let ghost pre = counter.draws();
            let result = attempt(counter, prepend, prefixes[i].as_str(), should_find_match);
            if let Some(input) = result {
                proof {
                    assert((pre as u64) as nat == pre);
                    assert(winning_input(input@, prepend@, prefixes@[i as int]@));
                }
                return Some((input, i));
            }
            proof {
                if should_find_match {
                    vstd::arithmetic::div_mod::lemma_add_mod_noop(
                        round_start as int - old(counter).draws() as int,
                        i as int,
                        lanes as int,
                    );
                    vstd::arithmetic::div_mod::lemma_small_mod(i as nat, lanes as nat);
                    assert(lane_of(pre as int, old(counter).draws() as int, lanes as int)
                        == i as int);
                    assert(nonce_fails(prepend@, prefixes@[i as int]@, pre as u64));
                    assert forall|n: u64|
                        old(counter).draws() <= n as nat && (n as nat) < counter.draws() implies nonce_fails(
                        prepend@,
                        prefixes@[lane_of(n as int, old(counter).draws() as int, lanes as int)]@,
                        n,
                    ) by {
                        if n as nat == pre {
                            assert(n == pre as u64);
                        }
                    }
                }
            }
            i = i + 1;
        }
        if !should_find_match {
            return None;
        }
        proof {
            vstd::arithmetic::div_mod::lemma_mod_add_multiples_vanish(
                round_start as int - old(counter).draws() as int,
                lanes as int,
            );
        }
    }
}

/// Searches for an input string whose SHA3-512 digest, rendered as lowercase
/// hex, starts with one of the target prefixes.
///
/// The prefixes are raced round-robin over a shared nonce counter, and the
/// returned index names the prefix the winning input satisfied; at most one
/// result is ever returned per invocation. With `should_find_match` false
/// every lane makes a single attempt and absence is returned; an empty
/// prefix set yields absence immediately. With matching asked for and a
/// non-empty prefix set, absence is returned only if every nonce in the u64
/// space yields a candidate that fails the prefix it is tested against.
pub fn find_hash(prefixes: Vec<String>, prepend: String, should_find_match: bool) -> (r: Option<
    (String, usize),
>)
    ensures
        !should_find_match ==> r is None,
        prefixes@.len() == 0 ==> r is None,
        r matches Some(pair) ==> {
            &&& should_find_match
            &&& (pair.1 as int) < prefixes@.len()
            &&& winning_input(pair.0@, prepend@, prefixes@[pair.1 as int]@)
        },
        should_find_match && prefixes@.len() > 0 && r is None ==> forall|n: u64|
            nonce_fails(prepend@, prefixes@[lane_of(n as int, 0, prefixes@.len() as int)]@, n),
{
    let mut counter = NonceCounter::new();
    let lanes = prefixes.len();
    proof {
        assert(lanes as nat <= u64::MAX as nat);
    }
    let r = run_lanes(&mut counter, &prefixes, prepend.as_str(), should_find_match);
    r
}

} // verus!
