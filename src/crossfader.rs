use vstd::prelude::*;

verus! {

/// One of the two signal paths that a crossfade moves between.
#[derive(Clone, Copy, Debug, PartialEq, Eq, Structural)]
pub enum Target {
    A,
    B,
}

/// Where a crossfade stands: resting on a path, or moving toward one.
#[derive(Clone, Copy, Debug, PartialEq, Eq, Structural)]
pub enum FadingState {
    Reached(Target),
    Approaching(Target),
}

impl FadingState {
    pub open spec fn target_spec(self) -> Target {
        match self {
            FadingState::Reached(t) => t,
            FadingState::Approaching(t) => t,
        }
    }

    pub open spec fn is_approaching(self) -> bool {
        self is Approaching
    }

    /// The path that this state rests on or moves toward.
    pub fn target(&self) -> (r: Target)
        ensures
            r == self.target_spec(),
    {
        match self {
            FadingState::Reached(t) => *t,
            FadingState::Approaching(t) => *t,
        }
    }
}


impl Target {
    pub open spec fn opposite_spec(self) -> Target {
        match self {
            Target::A => Target::B,
            Target::B => Target::A,
        }
    }

    /// The other path.
    pub fn opposite(self) -> (r: Target)
        ensures
            r == self.opposite_spec(),
    {
        match self {
            Target::A => Target::B,
            Target::B => Target::A,
        }
    }
}

/// How one output sample is made from the two paths' samples.
#[derive(Clone, Copy, Debug, PartialEq, Eq, Structural)]
pub enum Blend {
    /// Only this path is heard.
    Only(Target),
    /// Path B is weighted `b_weight / total`; the curve gives path A's weight.
    Weighted { b_weight: usize, total: usize },
}

/// The mathematical state of a crossfader.
pub struct CrossfaderView {
    pub samples: nat,
    pub counter: nat,
    pub state: FadingState,
}

impl CrossfaderView {
    /// A rest state has a zero counter; a fade is strictly inside its length.
    pub open spec fn wf(self) -> bool {
        &&& self.samples >= 1
        &&& match self.state {
            FadingState::Reached(_) => self.counter == 0,
            FadingState::Approaching(_) => self.counter < self.samples,
        }
    }

    /// The weight of path B, in units of `1 / samples`.
    pub open spec fn b_weight(self) -> int {
        match self.state {
            FadingState::Reached(Target::A) => 0,
            FadingState::Reached(Target::B) => self.samples as int,
            FadingState::Approaching(Target::B) => self.counter as int,
            FadingState::Approaching(Target::A) => self.samples - self.counter,
        }
    }

    /// The state after a request to fade into `target`.
    pub open spec fn faded_into(self, target: Target) -> CrossfaderView {
        if self.state.target_spec() == target {
            self
        } else {
            match self.state {
                FadingState::Reached(_) => CrossfaderView {
                    samples: self.samples,
                    counter: 0,
                    state: FadingState::Approaching(target),
                },
                FadingState::Approaching(_) => if self.counter == 0 {
                    CrossfaderView { samples: self.samples, counter: 0, state: FadingState::Reached(target) }
                } else {
                    CrossfaderView {
                        samples: self.samples,
                        counter: (self.samples - self.counter) as nat,
                        state: FadingState::Approaching(target),
                    }
                },
            }
        }
    }

    /// The state after one output sample.
    pub open spec fn advanced(self) -> CrossfaderView {
        match self.state {
            FadingState::Reached(_) => self,
            FadingState::Approaching(t) => if self.counter + 1 == self.samples {
                CrossfaderView { samples: self.samples, counter: 0, state: FadingState::Reached(t) }
            } else {
                CrossfaderView { samples: self.samples, counter: self.counter + 1, state: self.state }
            },
        }
    }

    /// How the output sample of that step is made.
    pub open spec fn blend_of_step(self) -> Blend {
        let next = self.advanced();
        match next.state {
            FadingState::Reached(t) => Blend::Only(t),
            FadingState::Approaching(_) => Blend::Weighted {
                b_weight: next.b_weight() as usize,
                total: self.samples as usize,
            },
        }
    }
}

impl CrossfaderView {
    /// The state after `n` output samples.
    pub open spec fn advanced_by(self, n: nat) -> CrossfaderView
        decreases n,
    {
        if n == 0 {
            self
        } else {
            self.advanced_by((n - 1) as nat).advanced()
        }
    }
}

/// Every step of a crossfader keeps it well formed.
pub proof fn lemma_steps_keep_wf(v: CrossfaderView, n: nat)
    requires
        v.wf(),
    ensures
        v.advanced_by(n).wf(),
    decreases n,
{
    if n > 0 {
        lemma_steps_keep_wf(v, (n - 1) as nat);
    }
}

/// A fade into A that runs for `n` samples and is then turned toward B goes
/// on from the weight it had reached: the weight of B has no jump at the
/// point of reversal, and the sample after it moves one unit toward B.
pub proof fn lemma_reversal_is_continuous(v: CrossfaderView, n: nat)
    requires
        v.wf(),
    ensures
        ({
            let before = v.faded_into(Target::A).advanced_by(n);
            let after = before.faded_into(Target::B);
            &&& after.wf()
            &&& after.b_weight() == before.b_weight()
            &&& after.state.is_approaching() ==> after.advanced().b_weight() == before.b_weight() + 1
        }),
{
    lemma_steps_keep_wf(v.faded_into(Target::A), n);
}

/// Sample-accurate crossfade between two paths, over a fixed number of samples.
#[derive(Clone, Copy, Debug)]
pub struct Crossfader {
    samples: usize,
    counter: usize,
    fading_state: FadingState,
}

impl View for Crossfader {
    type V = CrossfaderView;

    closed spec fn view(&self) -> CrossfaderView {
        CrossfaderView { samples: self.samples as nat, counter: self.counter as nat, state: self.fading_state }
    }
}

impl Crossfader {
    /// A crossfader at rest on path A.
    pub fn new(samples: usize) -> (r: Crossfader)
        requires
            samples >= 1,
        ensures
            r@.wf(),
            r@ == (CrossfaderView { samples: samples as nat, counter: 0, state: FadingState::Reached(Target::A) }),
    {
        Crossfader { samples, counter: 0, fading_state: FadingState::Reached(Target::A) }
    }

    pub fn fading_state(&self) -> (r: FadingState)
        ensures
            r == self@.state,
    {
        self.fading_state
    }

    pub fn is_crossfading(&self) -> (r: bool)
        ensures
            r == self@.state.is_approaching(),
    {
        match self.fading_state {
            FadingState::Approaching(_) => true,
            FadingState::Reached(_) => false,
        }
    }

    /// Starts a fade into `target`, or turns the running one around; a
    /// request for the path already aimed at changes nothing.
    pub fn fade_into(&mut self, target: Target)
        requires
            old(self)@.wf(),
        ensures
            final(self)@ == old(self)@.faded_into(target),
            final(self)@.wf(),
            final(self)@.state.target_spec() == target,
            final(self)@.b_weight() == old(self)@.b_weight(),
            old(self)@.state.target_spec() == target ==> final(self)@ == old(self)@,
    {
        let current = self.fading_state.target();
        if current == target {
            return;
        }
        match self.fading_state {
            FadingState::Reached(_) => {
                self.counter = 0;
                self.fading_state = FadingState::Approaching(target);
            },
            FadingState::Approaching(_) => {
                if self.counter == 0 {
                    self.fading_state = FadingState::Reached(target);
                } else {
                    self.counter = self.samples - self.counter;
                    self.fading_state = FadingState::Approaching(target);
                }
            },
        }
    }

    /// Moves the fade on by one output sample and says how that sample is
    /// made. Once the fade's length is used up the target is reached and
    /// heard alone.
    pub fn advance(&mut self) -> (r: Blend)
        requires
            old(self)@.wf(),
        ensures
            final(self)@ == old(self)@.advanced(),
            final(self)@.wf(),
            r == old(self)@.blend_of_step(),
            old(self)@.state.is_approaching() ==> final(self)@.b_weight() - old(self)@.b_weight() == (
            if old(self)@.state.target_spec() == Target::B {
                1int
            } else {
                -1int
            }),
    {
        match self.fading_state {
            FadingState::Reached(t) => Blend::Only(t),
            FadingState::Approaching(t) => {
                self.counter = self.counter + 1;
                if self.counter == self.samples {
                    self.counter = 0;
                    self.fading_state = FadingState::Reached(t);
                    Blend::Only(t)
                } else {
                    let b_weight = match t {
                        Target::B => self.counter,
                        Target::A => self.samples - self.counter,
                    };
                    Blend::Weighted { b_weight, total: self.samples }
                }
            },
        }
    }
}

} // verus!
