//! The frame synchronizer.
//!
//! One slot per swapchain image, each either idle or carrying the
//! completion signal of an earlier submission. The synchronizer decides,
//! for every acquire outcome, what the frame loop must do: abandon the
//! frame and recreate the swapchain, or render, possibly after waiting for
//! the acquired slot's outstanding signal. Because a slot must be waited
//! on before it is reused, at most one submission is ever in flight per
//! slot, and the number of unretired frames never exceeds the number of
//! image slots.

use vstd::prelude::*;
use vstd::pervasive::VecAdditionalExecFns;

verus! {

/// What the presentation engine answered when the next image was
/// requested. A fatal acquire error terminates the process at the caller
/// and never reaches the synchronizer.
#[derive(Debug, Clone, Copy, PartialEq, Eq)]
pub enum AcquireOutcome {
    /// An image is available. `suboptimal` reports that the swapchain no
    /// longer matches the surface perfectly; the frame still proceeds.
    Ready { image_index: usize, suboptimal: bool },
    /// The swapchain is stale: the frame is abandoned and a recreation is
    /// scheduled.
    OutOfDate,
}

/// What presenting the frame reported back.
#[derive(Debug, Clone, Copy, PartialEq, Eq)]
pub enum PresentOutcome {
    /// The frame was presented.
    Presented,
    /// The swapchain became stale after the work was issued: recreation is
    /// scheduled for the next frame and the slot keeps no signal.
    OutOfDate,
    /// Another, non-fatal error: the frame is dropped and the slot keeps
    /// no signal.
    OtherError,
}

/// What the frame loop must do for the current frame.
#[derive(Debug, Clone, Copy, PartialEq, Eq)]
pub enum FramePlan {
    /// No command submission this frame; a recreation has been scheduled.
    Abandon,
    /// Render to `image_index`. When `wait_image` holds, the slot still
    /// carries the signal of an earlier submission and must be waited on
    /// before its buffers are reused. When `wait_previous` holds, the
    /// previously submitted frame's signal is joined as a dependency of
    /// this submission.
    Render { image_index: usize, wait_image: bool, wait_previous: bool },
}

/// Per-image-slot synchronization state, the "previous frame" pointer, and
/// the pending-recreation flag.
pub struct FrameSynchronizer {
    in_flight: Vec<bool>,
    previous: usize,
    recreate_pending: bool,
}

/// The plan that follows from an acquire outcome in state `s`: a stale
/// swapchain abandons the frame; an acquired image is rendered to, waiting
/// first whenever its slot is still in flight, and joining the previous
/// frame's signal whenever that slot recorded one.
pub open spec fn spec_plan(s: FrameSynchronizer, outcome: AcquireOutcome) -> FramePlan {
    match outcome {
        AcquireOutcome::OutOfDate => FramePlan::Abandon,
        AcquireOutcome::Ready { image_index, suboptimal } => FramePlan::Render {
            image_index,
            wait_image: s.slot_in_flight(image_index as int),
            wait_previous: s.slot_in_flight(s.spec_previous()),
        },
    }
}

impl FrameSynchronizer {
    /// One entry per swapchain image: whether that slot still carries an
    /// unretired submission.
    pub closed spec fn spec_slots(&self) -> Seq<bool> {
        self.in_flight@
    }

    /// The number of image slots, fixed at construction.
    pub open spec fn image_count_spec(&self) -> int {
        self.spec_slots().len() as int
    }

    /// Whether slot `i` still carries an unretired submission.
    pub open spec fn slot_in_flight(&self, i: int) -> bool {
        self.spec_slots()[i]
    }

    /// The slot used by the most recently submitted frame.
    pub closed spec fn spec_previous(&self) -> int {
        self.previous as int
    }

    /// Whether a swapchain recreation has been scheduled and not yet taken.
    pub closed spec fn spec_recreate_pending(&self) -> bool {
        self.recreate_pending
    }

    pub open spec fn wf(&self) -> bool {
        0 <= self.spec_previous() < self.image_count_spec()
    }

    /// A synchronizer for `image_count` swapchain images, all slots idle.
    pub fn new(image_count: usize) -> (s: FrameSynchronizer)
        requires
            image_count >= 1,
        ensures
            s.wf(),
            s.image_count_spec() == image_count,
            forall|i: int| 0 <= i < image_count ==> !s.slot_in_flight(i),
            s.spec_previous() == 0,
            !s.spec_recreate_pending(),
    {
        let mut in_flight: Vec<bool> = Vec::new();
        for k in 0..image_count
            invariant
                in_flight@.len() == k,
                forall|i: int| 0 <= i < k ==> !in_flight@[i],
        {
            in_flight.push(false);
        }
        FrameSynchronizer { in_flight, previous: 0, recreate_pending: false }
    }

    pub fn image_count(&self) -> (n: usize)
        ensures
            n == self.image_count_spec(),
    {
        self.in_flight.len()
    }

    /// The slot the most recently submitted frame used; its signal is the
    /// wait-dependency a `wait_previous` plan joins.
    pub fn previous_slot(&self) -> (i: usize)
        ensures
            i == self.spec_previous(),
    {
        self.previous
    }

    pub fn recreation_pending(&self) -> (b: bool)
        ensures
            b == self.spec_recreate_pending(),
    {
        self.recreate_pending
    }

    /// Schedules a swapchain recreation: called when the windowing layer
    /// reports a resize, or when staleness is observed.
    pub fn schedule_recreation(&mut self)
        ensures
            final(self).spec_recreate_pending(),
            final(self).spec_slots() == old(self).spec_slots(),
            final(self).spec_previous() == old(self).spec_previous(),
    {
        self.recreate_pending = true;
    }

    /// Takes the pending request; when it returns true the caller must
    /// recreate the swapchain group before acquiring again.
    pub fn take_recreation_request(&mut self) -> (b: bool)
        ensures
            b == old(self).spec_recreate_pending(),
            !final(self).spec_recreate_pending(),
            final(self).spec_slots() == old(self).spec_slots(),
            final(self).spec_previous() == old(self).spec_previous(),
    {
        let b = self.recreate_pending;
        self.recreate_pending = false;
        b
    }

    /// Turns an acquire outcome into this frame's plan. A stale acquire
    /// schedules a recreation and submits nothing; a suboptimal acquire
    /// schedules a recreation but the frame still renders.
    pub fn plan_frame(&mut self, outcome: AcquireOutcome) -> (plan: FramePlan)
        requires
            old(self).wf(),
            outcome matches AcquireOutcome::Ready { image_index, .. } ==> image_index < old(
                self,
            ).image_count_spec(),
        ensures
            final(self).wf(),
            plan == spec_plan(*old(self), outcome),
            final(self).spec_slots() == old(self).spec_slots(),
            final(self).spec_previous() == old(self).spec_previous(),
            final(self).spec_recreate_pending() == (old(self).spec_recreate_pending() || match
                outcome {
                AcquireOutcome::OutOfDate => true,
                AcquireOutcome::Ready { suboptimal, .. } => suboptimal,
            }),
    {
        match outcome {
            AcquireOutcome::OutOfDate => {
                self.recreate_pending = true;
                FramePlan::Abandon
            },
            AcquireOutcome::Ready { image_index, suboptimal } => {
                if suboptimal {
                    self.recreate_pending = true;
                }
                FramePlan::Render {
                    image_index,
                    wait_image: self.in_flight[image_index],
                    wait_previous: self.in_flight[self.previous],
                }
            },
        }
    }

    /// Records that the caller blocked on slot `image_index`'s completion
    /// signal: the slot's earlier submission has retired and the slot may
    /// be reused.
    pub fn wait_complete(&mut self, image_index: usize)
        requires
            old(self).wf(),
            image_index < old(self).image_count_spec(),
        ensures
            final(self).wf(),
            final(self).image_count_spec() == old(self).image_count_spec(),
            !final(self).slot_in_flight(image_index as int),
            forall|k: int|
                0 <= k < old(self).image_count_spec() && k != image_index
                    ==> final(self).slot_in_flight(k) == old(self).slot_in_flight(k),
            final(self).spec_previous() == old(self).spec_previous(),
            final(self).spec_recreate_pending() == old(self).spec_recreate_pending(),
    {
        self.in_flight.set(image_index, false);
    }

    /// Records a finished submit-and-present for `image_index`. The slot
    /// must be idle: an earlier submission against the same image must have
    /// been waited on first, which is what keeps at most one submission in
    /// flight per slot. The previous-slot pointer advances to the slot just
    /// used, whatever the present outcome.
    pub fn frame_submitted(&mut self, image_index: usize, outcome: PresentOutcome)
        requires
            old(self).wf(),
            image_index < old(self).image_count_spec(),
            !old(self).slot_in_flight(image_index as int),
        ensures
            final(self).wf(),
            final(self).image_count_spec() == old(self).image_count_spec(),
            final(self).spec_previous() == image_index,
            final(self).slot_in_flight(image_index as int) == (outcome matches
                PresentOutcome::Presented),
            forall|k: int|
                0 <= k < old(self).image_count_spec() && k != image_index
                    ==> final(self).slot_in_flight(k) == old(self).slot_in_flight(k),
            final(self).spec_recreate_pending() == (old(self).spec_recreate_pending() || (outcome
                matches PresentOutcome::OutOfDate)),
    {
        match outcome {
            PresentOutcome::Presented => {
                self.in_flight.set(image_index, true);
            },
            PresentOutcome::OutOfDate => {
                self.in_flight.set(image_index, false);
                self.recreate_pending = true;
            },
            PresentOutcome::OtherError => {
                self.in_flight.set(image_index, false);
            },
        }
        self.previous = image_index;
    }
}

/// The slots that currently carry an unretired submission.
pub open spec fn frames_in_flight(s: FrameSynchronizer) -> Seq<bool> {
    s.spec_slots().filter(|b: bool| b)
}

/// Concurrency is bounded by the swapchain: since each unretired frame
/// occupies one image slot, the number of frames in flight never exceeds
/// the number of swapchain images.
pub proof fn lemma_in_flight_bounded(s: FrameSynchronizer)
    ensures
        frames_in_flight(s).len() <= s.image_count_spec(),
{
    s.spec_slots().lemma_filter_len(|b: bool| b);
}

/// A slot that is still in flight is never reused without blocking first:
/// whenever the acquired image's slot carries an unretired submission, the
/// plan demands a wait on that slot before rendering.
pub proof fn lemma_slot_reuse_requires_wait(
    s: FrameSynchronizer,
    image_index: usize,
    suboptimal: bool,
)
    requires
        s.wf(),
        image_index < s.image_count_spec(),
        s.slot_in_flight(image_index as int),
    ensures
        spec_plan(s, AcquireOutcome::Ready { image_index, suboptimal }) == (FramePlan::Render {
            image_index,
            wait_image: true,
            wait_previous: s.slot_in_flight(s.spec_previous()),
        }),
{
}

/// A stale acquire never renders: the plan for an out-of-date outcome is
/// to abandon the frame, and `plan_frame` schedules the recreation.
pub proof fn lemma_out_of_date_abandons(s: FrameSynchronizer)
    ensures
        spec_plan(s, AcquireOutcome::OutOfDate) == FramePlan::Abandon,
{
}

} // verus!
