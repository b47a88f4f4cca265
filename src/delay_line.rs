use vstd::prelude::*;

verus! {

/// The ring of the last `N` input spectra of a partitioned convolver,
/// written at `head`; `k` blocks back is the slot `(head - k) mod N`.
/// The spectra `R` are carried, never read.
#[derive(Clone, Debug)]
pub struct DelayLine<R> {
    slots: Vec<R>,
    head: usize,
}

/// `(head - k) mod n`, for `k <= n`.
pub open spec fn slot_back(head: int, k: int, n: int) -> int {
    if k <= head {
        head - k
    } else {
        head + n - k
    }
}

impl<R: Copy> DelayLine<R> {
    pub closed spec fn len(&self) -> nat {
        self.slots@.len()
    }

    pub closed spec fn head_index(&self) -> nat {
        self.head as nat
    }

    pub closed spec fn wf(&self) -> bool {
        &&& self.slots@.len() >= 1
        &&& self.head < self.slots@.len()
    }

    /// The ring read from `head` backwards: entry `k` is the spectrum stored
    /// `k` blocks before the one at `head`.
    pub closed spec fn recent(&self) -> Seq<R> {
        Seq::new(self.slots@.len(), |k: int| self.slots@[slot_back(self.head as int, k, self.slots@.len() as int)])
    }

    /// `n` slots, all `zero`, with `head` at the first.
    pub fn new(n: usize, zero: R) -> (r: Self)
        requires
            n >= 1,
        ensures
            r.wf(),
            r.len() == n,
            r.head_index() == 0,
            r.recent() == Seq::new(n as nat, |k: int| zero),
    {
        let slots = crate::response::filled(n, zero);
        let r = DelayLine { slots, head: 0 };
        assert(r.recent() =~= Seq::new(n as nat, |k: int| zero));
        r
    }

    /// The slot that holds the spectrum of `k` blocks back.
    pub fn slot_of(&self, k: usize) -> (r: usize)
        requires
            self.wf(),
            k < self.len(),
        ensures
            r == slot_back(self.head_index() as int, k as int, self.len() as int),
            r as int == (self.head_index() as int - k as int) % (self.len() as int),
    {
        let n = self.slots.len();
        if k <= self.head {
            proof {
                vstd::arithmetic::div_mod::lemma_small_mod((self.head - k) as nat, n as nat);
            }
            self.head - k
        } else {
            proof {
                vstd::arithmetic::div_mod::lemma_mod_add_multiples_vanish(self.head - k, n as int);
                vstd::arithmetic::div_mod::lemma_small_mod((self.head + n - k) as nat, n as nat);
            }
            n - (k - self.head)
        }
    }

    /// The spectrum of `k` blocks back.
    pub fn get(&self, k: usize) -> (r: R)
        requires
            self.wf(),
            k < self.len(),
        ensures
            r == self.recent()[k as int],
    {
        let i = self.slot_of(k);
        self.slots[i]
    }

    /// Writes the current block's spectrum at `head`.
    pub fn store(&mut self, x: R)
        requires
            old(self).wf(),
        ensures
            final(self).wf(),
            final(self).len() == old(self).len(),
            final(self).head_index() == old(self).head_index(),
            final(self).recent() == old(self).recent().update(0, x),
    {
        let h = self.head;
        self.slots.set(h, x);
        assert(self.recent() =~= old(self).recent().update(0, x));
    }

    /// Moves `head` on by one slot, modulo `N`: what was `k` blocks back is
    /// now `k + 1` back, and the oldest spectrum comes under `head`, to be
    /// written over next.
    pub fn advance(&mut self)
        requires
            old(self).wf(),
        ensures
            final(self).wf(),
            final(self).len() == old(self).len(),
            final(self).head_index() == (old(self).head_index() + 1) % old(self).len(),
            final(self).recent() == seq![old(self).recent().last()] + old(self).recent().drop_last(),
    {
        let n = self.slots.len();
        if self.head + 1 == n {
            self.head = 0;
        } else {
            self.head = self.head + 1;
        }
        proof {
            vstd::arithmetic::div_mod::lemma_small_mod(self.head as nat, n as nat);
            if old(self).head + 1 == n {
                vstd::arithmetic::div_mod::lemma_mod_self_0(n as int);
            }
            assert(self.recent() =~= seq![old(self).recent().last()] + old(self).recent().drop_last());
        }
    }
}

/// Storing a block's spectrum and then moving on, block after block, keeps
/// the newest spectra at the front: after `x` and then `y` the line reads
/// `y`, `x`, and then what it read before `x` was stored, less its last
/// entry.
pub proof fn lemma_delay_line_keeps_order<R: Copy>(
    d0: DelayLine<R>,
    d1: DelayLine<R>,
    d2: DelayLine<R>,
    d3: DelayLine<R>,
    x: R,
    y: R,
)
    requires
        d0.wf(),
        d0.len() >= 2,
        d1.recent() == d0.recent().update(0, x),
        d1.len() == d0.len(),
        d2.recent() == seq![d1.recent().last()] + d1.recent().drop_last(),
        d3.recent() == d2.recent().update(0, y),
    ensures
        d3.recent()[0] == y,
        d3.recent()[1] == x,
        forall|k: int| 2 <= k < d0.len() ==> d3.recent()[k] == d0.recent()[k - 1],
{
    assert(d1.recent().len() == d0.len());
}

} // verus!
