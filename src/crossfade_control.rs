use vstd::prelude::*;

use crate::crossfader::{Blend, Crossfader, CrossfaderView, FadingState, Target};
use crate::response::{copy_and_pad, filled, padded};

verus! {

/// The decisions of a convolver that runs two paths, A and B, and
/// crossfades to the one that took a new response. The response entries `R`
/// are carried, never read: the caller installs them and does the mixing.
#[derive(Clone, Debug)]
pub struct CrossfadeControl<R> {
    crossfader: Crossfader,
    stored_response: Vec<R>,
    response_pending: bool,
    zero: R,
}

impl<R: Copy> CrossfadeControl<R> {
    pub closed spec fn fader(&self) -> CrossfaderView {
        self.crossfader@
    }

    /// The single slot that holds the latest response not yet installed.
    pub closed spec fn stored(&self) -> Seq<R> {
        self.stored_response@
    }

    pub closed spec fn pending(&self) -> bool {
        self.response_pending
    }

    pub closed spec fn zero_value(&self) -> R {
        self.zero
    }

    pub open spec fn wf(&self) -> bool {
        self.fader().wf()
    }

    /// Where the next install goes: the path opposite the current target.
    pub open spec fn inactive_path(&self) -> Target {
        self.fader().state.target_spec().opposite_spec()
    }

    /// What `update(response)` does: while no fade runs, the response goes to
    /// the inactive path at once and a fade toward it starts; during a fade
    /// it replaces whatever the slot held.
    pub open spec fn updated(self, after: Self, response: Seq<R>, routed: Option<Target>) -> bool {
        &&& after.zero_value() == self.zero_value()
        &&& if !self.fader().state.is_approaching() {
            &&& routed == Some(self.inactive_path())
            &&& after.fader() == self.fader().faded_into(self.inactive_path())
            &&& !after.pending()
            &&& after.stored() == self.stored()
        } else {
            &&& routed == None::<Target>
            &&& after.fader() == self.fader()
            &&& after.pending()
            &&& after.stored() == padded(response, self.zero_value(), self.stored().len())
        }
    }

    /// At rest on path A, with an empty slot of `max_response_length` entries.
    pub fn new(crossfade_samples: usize, max_response_length: usize, zero: R) -> (r: Self)
        requires
            crossfade_samples >= 1,
        ensures
            r.wf(),
            r.fader() == (CrossfaderView { samples: crossfade_samples as nat, counter: 0, state: FadingState::Reached(Target::A) }),
            !r.pending(),
            r.stored() == Seq::new(max_response_length as nat, |i: int| zero),
            r.zero_value() == zero,
    {
        let stored_response = filled(max_response_length, zero);
        CrossfadeControl {
            crossfader: Crossfader::new(crossfade_samples),
            stored_response,
            response_pending: false,
            zero,
        }
    }

    pub fn crossfader(&self) -> (r: &Crossfader)
        ensures
            r@ == self.fader(),
    {
        &self.crossfader
    }

    pub fn is_crossfading(&self) -> (r: bool)
        ensures
            r == self.fader().state.is_approaching(),
    {
        self.crossfader.is_crossfading()
    }

    pub fn is_response_pending(&self) -> (r: bool)
        ensures
            r == self.pending(),
    {
        self.response_pending
    }

    pub fn stored_response(&self) -> (r: &[R])
        ensures
            r@ == self.stored(),
    {
        self.stored_response.as_slice()
    }

    /// The longest response that `update` takes.
    pub fn max_response_length(&self) -> (r: usize)
        ensures
            r == self.stored().len(),
    {
        self.stored_response.len()
    }

    /// Takes a new response. Returns the path that must have `response`
    /// installed now, or `None` where it was kept in the slot for later.
    pub fn update(&mut self, response: &[R]) -> (r: Option<Target>)
        requires
            old(self).wf(),
            response@.len() <= old(self).stored().len(),
        ensures
            final(self).wf(),
            old(self).updated(*final(self), response@, r),
    {
        if !self.crossfader.is_crossfading() {
            let path = self.crossfader.fading_state().target().opposite();
            self.crossfader.fade_into(path);
            self.response_pending = false;
            return Some(path);
        }
        copy_and_pad(&mut self.stored_response, response, self.zero);
        self.response_pending = true;
        None
    }

    /// Called before each block. Where no fade runs and a response waits in
    /// the slot, starts the fade toward the inactive path and returns it: the
    /// caller installs `stored_response()` there before processing.
    pub fn begin_block(&mut self) -> (r: Option<Target>)
        requires
            old(self).wf(),
        ensures
            final(self).wf(),
            final(self).stored() == old(self).stored(),
            final(self).zero_value() == old(self).zero_value(),
            if !old(self).fader().state.is_approaching() && old(self).pending() {
                &&& r == Some(old(self).inactive_path())
                &&& final(self).fader() == old(self).fader().faded_into(old(self).inactive_path())
                &&& !final(self).pending()
            } else {
                &&& r == None::<Target>
                &&& final(self).fader() == old(self).fader()
                &&& final(self).pending() == old(self).pending()
            },
    {
        if !self.crossfader.is_crossfading() && self.response_pending {
            let path = self.crossfader.fading_state().target().opposite();
            self.crossfader.fade_into(path);
            self.response_pending = false;
            return Some(path);
        }
        None
    }

    /// Moves the crossfade on by one output sample; see `Crossfader::advance`.
    pub fn advance(&mut self) -> (r: Blend)
        requires
            old(self).wf(),
        ensures
            final(self).wf(),
            final(self).fader() == old(self).fader().advanced(),
            r == old(self).fader().blend_of_step(),
            final(self).stored() == old(self).stored(),
            final(self).pending() == old(self).pending(),
            final(self).zero_value() == old(self).zero_value(),
    {
        self.crossfader.advance()
    }
}

/// Two updates that arrive during a fade leave only the second response
/// waiting, and the fade itself goes on undisturbed.
pub proof fn lemma_crossfade_keeps_latest<R: Copy>(
    s0: CrossfadeControl<R>,
    s1: CrossfadeControl<R>,
    s2: CrossfadeControl<R>,
    first: Seq<R>,
    second: Seq<R>,
    routed1: Option<Target>,
    routed2: Option<Target>,
)
    requires
        s0.wf(),
        s0.fader().state.is_approaching(),
        s0.updated(s1, first, routed1),
        s1.updated(s2, second, routed2),
    ensures
        s2.pending(),
        s2.stored() == padded(second, s0.zero_value(), s0.stored().len()),
        s2.fader() == s0.fader(),
        routed1 == None::<Target> && routed2 == None::<Target>,
{
}

} // verus!
