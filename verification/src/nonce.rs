use vstd::prelude::*;

verus! {

/// A monotonically increasing counter handing out unique nonces.
///
/// The counter is scoped to one search invocation: it starts at zero, and
/// every draw returns the pre-increment value, so the values handed out so
/// far are exactly `0, 1, ..., draws() - 1`. The tally is kept wider than
/// the nonce type so that every one of the `u64::MAX + 1` nonce values can
/// be drawn exactly once before the counter reports exhaustion.
pub struct NonceCounter {
    count: u128,
}

impl NonceCounter {
    /// How many nonces have been drawn so far.
    pub closed spec fn draws(self) -> nat {
        self.count as nat
    }

    /// The sequence of values handed out so far, in draw order.
    pub open spec fn drawn(self) -> Seq<u64> {
        Seq::new(self.draws(), |i: int| i as u64)
    }

    /// A fresh counter, handing out nonces from zero.
    pub fn new() -> (r: NonceCounter)
        ensures
            r.draws() == 0,
    {
        NonceCounter { count: 0 }
    }

    /// Whether the whole nonce space has been drawn.
    pub fn exhausted(&self) -> (r: bool)
        ensures
            r == (self.draws() > u64::MAX as nat),
    {
        self.count > u64::MAX as u128
    }

    /// Draw the next nonce: returns the pre-increment counter value and
    /// advances the counter by one.
    pub fn draw(&mut self) -> (r: u64)
        requires
            old(self).draws() <= u64::MAX as nat,
        ensures
            r as nat == old(self).draws(),
            final(self).draws() == old(self).draws() + 1,
            final(self).drawn() == old(self).drawn().push(r),
    {
        let r: u64 = self.count as u64;
        self.count = self.count + 1;
        proof {
            assert(self.drawn() =~= old(self).drawn().push(r));
        }
        r
    }
}

/// Law: across one invocation, the drawn nonces form the contiguous range
/// starting at zero, and in particular are pairwise distinct: no two draws
/// ever return the same value.
pub proof fn lemma_nonce_uniqueness(c: NonceCounter)
    requires
        c.draws() <= u64::MAX as nat + 1,
    ensures
        forall|i: int| 0 <= i < c.drawn().len() ==> c.drawn()[i] == i as u64,
        forall|i: int, j: int|
            0 <= i < c.drawn().len() && 0 <= j < c.drawn().len() && i != j
                ==> c.drawn()[i] != c.drawn()[j],
{
}

} // verus!
