use vstd::prelude::*;

use crate::response::{copy_and_pad, filled, padded};
use vstd::arithmetic::div_mod::lemma_fundamental_div_mod_converse;
use vstd::arithmetic::mul::lemma_mul_is_distributive_add_other_way;

verus! {

/// One segment rewrite: segment `segment` of the convolver takes
/// `(1 - w) * current + w * next` over its range, with `w = phase_num / phase_den`.
#[derive(Clone, Copy, Debug, PartialEq, Eq, Structural)]
pub struct SegmentStep {
    pub segment: usize,
    pub phase_num: usize,
    pub phase_den: usize,
}

/// The decisions of a convolver that moves to a new response one segment
/// per block, spending `scale_factor` blocks on each segment. The response
/// entries `R` are carried, never read.
#[derive(Clone, Debug)]
pub struct StepwiseSchedule<R> {
    seg_count: usize,
    scale_factor: usize,
    segment: usize,
    phase: usize,
    switching: bool,
    response_pending: bool,
    current_response: Vec<R>,
    next_response: Vec<R>,
    queued_response: Vec<R>,
    zero: R,
}

impl<R: Copy> StepwiseSchedule<R> {
    pub closed spec fn seg_count(&self) -> nat {
        self.seg_count as nat
    }

    pub closed spec fn scale(&self) -> nat {
        self.scale_factor as nat
    }

    /// Blocks spent so far on the transition under way.
    pub closed spec fn transition_counter(&self) -> nat {
        (self.segment * self.scale_factor + self.phase) as nat
    }

    pub closed spec fn switching(&self) -> bool {
        self.switching
    }

    pub closed spec fn pending(&self) -> bool {
        self.response_pending
    }

    /// The response that the transition starts from.
    pub closed spec fn current(&self) -> Seq<R> {
        self.current_response@
    }

    /// The response that the transition moves to.
    pub closed spec fn next(&self) -> Seq<R> {
        self.next_response@
    }

    /// The single slot for a response that arrived during a transition.
    pub closed spec fn queued(&self) -> Seq<R> {
        self.queued_response@
    }

    pub closed spec fn zero_value(&self) -> R {
        self.zero
    }

    pub closed spec fn wf(&self) -> bool {
        &&& self.seg_count >= 1
        &&& self.scale_factor >= 1
        &&& self.segment < self.seg_count
        &&& self.phase < self.scale_factor
        &&& !self.switching ==> self.segment == 0 && self.phase == 0
        &&& self.next_response@.len() == self.current_response@.len()
        &&& self.queued_response@.len() == self.current_response@.len()
    }

    /// The number of blocks that a whole transition takes.
    pub open spec fn transition_length(&self) -> nat {
        self.seg_count() * self.scale()
    }

    pub open spec fn same_config(self, other: Self) -> bool {
        &&& other.wf()
        &&& other.seg_count() == self.seg_count()
        &&& other.scale() == self.scale()
        &&& other.zero_value() == self.zero_value()
        &&& other.current().len() == self.current().len()
    }

    /// What `update(response)` does: with no transition under way it starts
    /// one toward `response`; during one, `response` replaces whatever the
    /// slot held.
    pub open spec fn updated(self, after: Self, response: Seq<R>) -> bool {
        let r = padded(response, self.zero_value(), self.current().len());
        &&& self.same_config(after)
        &&& after.current() == self.current()
        &&& after.switching()
        &&& after.transition_counter() == self.transition_counter()
        &&& if !self.switching() {
            &&& after.next() == r
            &&& !after.pending()
            &&& after.queued() == self.queued()
        } else {
            &&& after.next() == self.next()
            &&& after.pending()
            &&& after.queued() == r
        }
    }

    /// Starts at rest on `response`, padded to `max_response_length`, with
    /// a convolver of `seg_count` segments.
    pub fn new(response: &[R], max_response_length: usize, seg_count: usize, scale_factor: usize, zero: R) -> (r: Self)
        requires
            response@.len() <= max_response_length,
            seg_count >= 1,
            scale_factor >= 1,
        ensures
            r.wf(),
            r.seg_count() == seg_count,
            r.scale() == scale_factor,
            r.zero_value() == zero,
            r.current() == padded(response@, zero, max_response_length as nat),
            r.next() == Seq::new(max_response_length as nat, |i: int| zero),
            r.queued() == Seq::new(max_response_length as nat, |i: int| zero),
            !r.switching(),
            !r.pending(),
            r.transition_counter() == 0,
    {
        let mut current_response = filled(max_response_length, zero);
        copy_and_pad(&mut current_response, response, zero);
        StepwiseSchedule {
            seg_count,
            scale_factor,
            segment: 0,
            phase: 0,
            switching: false,
            response_pending: false,
            current_response,
            next_response: filled(max_response_length, zero),
            queued_response: filled(max_response_length, zero),
            zero,
        }
    }

    pub fn is_switching(&self) -> (r: bool)
        ensures
            r == self.switching(),
    {
        self.switching
    }

    pub fn is_response_pending(&self) -> (r: bool)
        ensures
            r == self.pending(),
    {
        self.response_pending
    }

    pub fn current_response(&self) -> (r: &[R])
        ensures
            r@ == self.current(),
    {
        self.current_response.as_slice()
    }

    pub fn next_response(&self) -> (r: &[R])
        ensures
            r@ == self.next(),
    {
        self.next_response.as_slice()
    }

    /// The longest response that `update` takes.
    pub fn max_response_length(&self) -> (r: usize)
        ensures
            r == self.current().len(),
    {
        self.current_response.len()
    }

    pub fn update(&mut self, response: &[R])
        requires
            old(self).wf(),
            response@.len() <= old(self).current().len(),
        ensures
            old(self).updated(*final(self), response@),
    {
        if !self.switching {
            copy_and_pad(&mut self.next_response, response, self.zero);
            self.switching = true;
            self.response_pending = false;
            return;
        }
        copy_and_pad(&mut self.queued_response, response, self.zero);
        self.response_pending = true;
    }
}

impl<R: Copy> StepwiseSchedule<R> {
    /// The rewrite that the block at counter `c` of a transition makes:
    /// segment `c / f` at phase `(c mod f + 1) / f`.
    pub open spec fn step_at(&self, c: nat) -> SegmentStep {
        SegmentStep {
            segment: (c / self.scale()) as usize,
            phase_num: (c % self.scale() + 1) as usize,
            phase_den: self.scale() as usize,
        }
    }

    /// Called before each block. Arms the waiting response where no
    /// transition runs, then returns the rewrite that this block makes, if
    /// any. The caller mixes `current_response()` and `next_response()` for
    /// it, rewrites the segment, processes, and then calls `end_block`.
    pub fn begin_block(&mut self) -> (r: Option<SegmentStep>)
        requires
            old(self).wf(),
        ensures
            old(self).same_config(*final(self)),
            final(self).current() == old(self).current(),
            if !old(self).switching() && old(self).pending() {
                &&& final(self).switching()
                &&& !final(self).pending()
                &&& final(self).next() == old(self).queued()
                &&& final(self).queued() == old(self).next()
                &&& final(self).transition_counter() == 0
            } else {
                &&& final(self).switching() == old(self).switching()
                &&& final(self).pending() == old(self).pending()
                &&& final(self).next() == old(self).next()
                &&& final(self).queued() == old(self).queued()
                &&& final(self).transition_counter() == old(self).transition_counter()
            },
            final(self).switching() ==> final(self).transition_counter() < final(self).transition_length(),
            r == if final(self).switching() {
                Some(final(self).step_at(final(self).transition_counter()))
            } else {
                None::<SegmentStep>
            },
    {
        if !self.switching && self.response_pending {
            std::mem::swap(&mut self.next_response, &mut self.queued_response);
            self.response_pending = false;
            self.switching = true;
        }
        proof {
            self.lemma_counter_parts();
        }
        if self.switching {
            Some(SegmentStep { segment: self.segment, phase_num: self.phase + 1, phase_den: self.scale_factor })
        } else {
            None
        }
    }

    /// Called after each block. Moves the transition on by one block and,
    /// once every segment has been rewritten at full phase, makes the new
    /// response current and returns `true`. A response that waits in the slot
    /// at that moment becomes the next target at once, and a new transition
    /// toward it starts.
    pub fn end_block(&mut self) -> (committed: bool)
        requires
            old(self).wf(),
        ensures
            old(self).same_config(*final(self)),
            !old(self).switching() ==> !committed && *final(self) == *old(self),
            old(self).switching() ==> committed == (old(self).transition_counter() + 1 == old(self).transition_length()),
            old(self).switching() && committed ==> {
                &&& final(self).transition_counter() == 0
                &&& final(self).current() == old(self).next()
                &&& !final(self).pending()
            },
            old(self).switching() && committed && old(self).pending() ==> {
                &&& final(self).switching()
                &&& final(self).next() == old(self).queued()
                &&& final(self).queued() == old(self).current()
            },
            old(self).switching() && committed && !old(self).pending() ==> {
                &&& !final(self).switching()
                &&& final(self).next() == old(self).current()
                &&& final(self).queued() == old(self).queued()
            },
            old(self).switching() && !committed ==> {
                &&& final(self).pending() == old(self).pending()
                &&& final(self).switching()
                &&& final(self).transition_counter() == old(self).transition_counter() + 1
                &&& final(self).current() == old(self).current()
                &&& final(self).next() == old(self).next()
                &&& final(self).queued() == old(self).queued()
            },
    {
        proof {
            self.lemma_counter_parts();
        }
        if !self.switching {
            return false;
        }
        let ghost before = self.transition_counter();
        proof {
            lemma_mul_is_distributive_add_other_way(self.scale_factor as int, self.segment as int, 1);
            lemma_mul_is_distributive_add_other_way(self.scale_factor as int, (self.seg_count - 1) as int, 1);
        }
        if self.phase + 1 < self.scale_factor {
            self.phase = self.phase + 1;
            proof {
                if before + 1 == self.transition_length() {
                    assert(self.segment * self.scale_factor <= (self.seg_count - 1) * self.scale_factor) by (nonlinear_arith)
                        requires self.segment <= self.seg_count - 1;
                }
            }
            return false;
        }
        self.phase = 0;
        if self.segment + 1 < self.seg_count {
            self.segment = self.segment + 1;
            proof {
                assert(self.segment * self.scale_factor <= (self.seg_count - 1) * self.scale_factor) by (nonlinear_arith)
                    requires self.segment <= self.seg_count - 1;
            }
            return false;
        }
        self.segment = 0;
        std::mem::swap(&mut self.current_response, &mut self.next_response);
        if self.response_pending {
            std::mem::swap(&mut self.next_response, &mut self.queued_response);
            self.response_pending = false;
        } else {
            self.switching = false;
        }
        true
    }

    proof fn lemma_counter_parts(&self)
        requires
            self.wf(),
        ensures
            self.transition_counter() / self.scale() == self.segment,
            self.transition_counter() % self.scale() == self.phase,
            self.transition_counter() < self.transition_length(),
    {
        lemma_fundamental_div_mod_converse(
            self.transition_counter() as int,
            self.scale_factor as int,
            self.segment as int,
            self.phase as int,
        );
        assert(self.segment * self.scale_factor + self.phase < self.seg_count * self.scale_factor) by (nonlinear_arith)
            requires
                self.segment < self.seg_count,
                self.phase < self.scale_factor,
        ;
    }
}

/// Every block of a transition rewrites a segment that exists, and segment
/// `k` is last rewritten at full phase, on block `k * f + f - 1`: the final
/// block of the transition writes the last segment with the new response
/// alone, so the new response is wholly installed when the transition ends.
pub proof fn lemma_schedule_covers_segments<R: Copy>(s: StepwiseSchedule<R>, c: nat, k: nat)
    requires
        s.wf(),
    ensures
        c < s.transition_length() ==> s.step_at(c).segment < s.seg_count(),
        c < s.transition_length() ==> 1 <= s.step_at(c).phase_num <= s.step_at(c).phase_den,
        k < s.seg_count() ==> {
            let last = k * s.scale() + s.scale() - 1;
            &&& last < s.transition_length()
            &&& s.step_at(last as nat).segment == k
            &&& s.step_at(last as nat).phase_num == s.step_at(last as nat).phase_den
        },
{
    let f = s.scale() as int;
    let n = s.seg_count() as int;
    if c < s.transition_length() {
        vstd::arithmetic::div_mod::lemma_div_pos_is_pos(c as int, f);
        vstd::arithmetic::div_mod::lemma_mod_pos_bound(c as int, f);
        assert(n * f == s.transition_length());
        vstd::arithmetic::div_mod::lemma_div_by_multiple_is_strongly_ordered(c as int, n * f, n, f);
        vstd::arithmetic::div_mod::lemma_div_multiples_vanish(n, f);
        assert((c as int) / f < n);
    }
    if k < s.seg_count() {
        lemma_fundamental_div_mod_converse(k * f + f - 1, f, k as int, f - 1);
        assert(k * f + f <= n * f) by (nonlinear_arith)
            requires
                k < n,
                f >= 1,
        ;
    }
}

/// Two updates that arrive during a transition leave only the second
/// response waiting; the transition under way keeps its target.
pub proof fn lemma_stepwise_keeps_latest<R: Copy>(
    s0: StepwiseSchedule<R>,
    s1: StepwiseSchedule<R>,
    s2: StepwiseSchedule<R>,
    first: Seq<R>,
    second: Seq<R>,
)
    requires
        s0.wf(),
        s0.switching(),
        s0.updated(s1, first),
        s1.updated(s2, second),
    ensures
        s2.pending(),
        s2.queued() == padded(second, s0.zero_value(), s0.current().len()),
        s2.next() == s0.next(),
        s2.current() == s0.current(),
{
}

} // verus!
