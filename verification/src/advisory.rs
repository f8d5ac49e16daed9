//! Advisories from the ground, and the queue that holds each one back until
//! the signal and the ground's work on it have taken their time.
//!
//! The signal takes 2.6 seconds and the ground 2.0 seconds, so an advisory
//! is shown 4.6 seconds after the instant that it was computed for.

use vstd::prelude::*;

verus! {

/// Most advisories that can wait at once; one that arrives at a full queue
/// is dropped.
pub const QUEUE_CAPACITY: usize = 100;

/// Sub-steps that the signal takes.
pub const TRANSMISSION_DELAY: u64 = 26;

/// Sub-steps that the ground takes to work out an advisory.
pub const PROCESSING_DELAY: u64 = 20;

/// An advisory: either a confirmation that the burn rates are right, or the
/// two changes that the ground suggests.
#[derive(Clone, Copy, Debug, PartialEq, Eq, Structural)]
pub struct Correction {
    /// Instant that the advisory was computed for.
    pub eval_time: u64,
    /// First instant at which the pilot may see it.
    pub display_time: u64,
    /// Suggested change of the vertical burn rate.
    pub v_burn_diff: i64,
    /// Suggested change of the horizontal burn rate.
    pub h_burn_diff: i64,
    /// Whether the projected landing is within tolerance as it is.
    pub is_confirmation: bool,
}

/// One line of an advisory as the pilot reads it.
#[derive(Clone, Copy, Debug, PartialEq, Eq, Structural)]
pub enum AdvisoryLine {
    /// The burn rates are nominal.
    Nominal,
    /// Raise the vertical burn rate by this much.
    IncreaseVerticalBurn(u64),
    /// Lower the vertical burn rate by this much.
    DecreaseVerticalBurn(u64),
    /// Raise the horizontal burn rate by this much.
    IncreaseHorizontalBurn(u64),
    /// Lower the horizontal burn rate by this much.
    DecreaseHorizontalBurn(u64),
}

/// The advisories of `pending` that are shown at the instant `now`, in the
/// order in which they arrived.
pub open spec fn due(pending: Seq<Correction>, now: nat) -> Seq<Correction> {
    pending.filter(|c: Correction| c.display_time <= now)
}

/// The advisories of `pending` that are still held back at the instant
/// `now`, in the order in which they arrived.
pub open spec fn waiting(pending: Seq<Correction>, now: nat) -> Seq<Correction> {
    pending.filter(|c: Correction| c.display_time > now)
}

/// The queue after `correction` arrives: it joins at the end where there is
/// room, and is dropped where there is none.
pub open spec fn enqueued(pending: Seq<Correction>, correction: Correction) -> Seq<Correction> {
    if pending.len() < QUEUE_CAPACITY {
        pending.push(correction)
    } else {
        pending
    }
}

/// Magnitude of a signed change.
pub open spec fn magnitude(diff: int) -> nat {
    if diff >= 0 {
        diff as nat
    } else {
        (-diff) as nat
    }
}

/// The line for the vertical axis: none where the change is zero.
pub open spec fn vertical_lines(diff: int) -> Seq<AdvisoryLine> {
    if diff > 0 {
        seq![AdvisoryLine::IncreaseVerticalBurn(magnitude(diff) as u64)]
    } else if diff < 0 {
        seq![AdvisoryLine::DecreaseVerticalBurn(magnitude(diff) as u64)]
    } else {
        Seq::empty()
    }
}

/// The line for the horizontal axis: none where the change is zero.
pub open spec fn horizontal_lines(diff: int) -> Seq<AdvisoryLine> {
    if diff > 0 {
        seq![AdvisoryLine::IncreaseHorizontalBurn(magnitude(diff) as u64)]
    } else if diff < 0 {
        seq![AdvisoryLine::DecreaseHorizontalBurn(magnitude(diff) as u64)]
    } else {
        Seq::empty()
    }
}

impl Correction {
    /// What the pilot reads when the advisory is shown: one line for a
    /// confirmation, else the vertical line and then the horizontal line,
    /// each only where its change is not zero.
    pub open spec fn spec_lines(&self) -> Seq<AdvisoryLine> {
        if self.is_confirmation {
            seq![AdvisoryLine::Nominal]
        } else {
            vertical_lines(self.v_burn_diff as int) + horizontal_lines(self.h_burn_diff as int)
        }
    }

    /// Computes [`Correction::spec_lines`].
    pub fn lines(&self) -> (lines: Vec<AdvisoryLine>)
        ensures
            lines@ == self.spec_lines(),
    {
        let mut lines: Vec<AdvisoryLine> = Vec::new();
        if self.is_confirmation {
            lines.push(AdvisoryLine::Nominal);
            assert(lines@ =~= self.spec_lines());
        } else {
            if self.v_burn_diff > 0 {
                let amount = compute_magnitude(self.v_burn_diff);
                lines.push(AdvisoryLine::IncreaseVerticalBurn(amount));
            } else if self.v_burn_diff < 0 {
                let amount = compute_magnitude(self.v_burn_diff);
                lines.push(AdvisoryLine::DecreaseVerticalBurn(amount));
            }
            assert(lines@ =~= vertical_lines(self.v_burn_diff as int));
            if self.h_burn_diff > 0 {
                let amount = compute_magnitude(self.h_burn_diff);
                lines.push(AdvisoryLine::IncreaseHorizontalBurn(amount));
            } else if self.h_burn_diff < 0 {
                let amount = compute_magnitude(self.h_burn_diff);
                lines.push(AdvisoryLine::DecreaseHorizontalBurn(amount));
            }
            assert(lines@ =~= self.spec_lines());
        }
        lines
    }
}

/// Computes [`magnitude`].
pub fn compute_magnitude(diff: i64) -> (amount: u64)
    ensures
        amount == magnitude(diff as int),
{
    if diff >= 0 {
        diff as u64
    } else {
        (-(diff + 1)) as u64 + 1
    }
}

/// The advisories that have been computed and not yet shown, oldest first.
pub struct AdvisoryQueue {
    pending: Vec<Correction>,
}

impl View for AdvisoryQueue {
    type V = Seq<Correction>;

    closed spec fn view(&self) -> Seq<Correction> {
        self.pending@
    }
}

impl AdvisoryQueue {
    /// Whether the queue is within its capacity.
    pub open spec fn wf(&self) -> bool {
        self@.len() <= QUEUE_CAPACITY
    }

    /// An empty queue.
    pub fn new() -> (queue: AdvisoryQueue)
        ensures
            queue.wf(),
            queue@ == Seq::<Correction>::empty(),
    {
        AdvisoryQueue { pending: Vec::new() }
    }

    /// How many advisories wait.
    pub fn len(&self) -> (len: usize)
        ensures
            len == self@.len(),
    {
        self.pending.len()
    }

    /// The advisory that is `index` places behind the oldest.
    pub fn get(&self, index: usize) -> (correction: Option<Correction>)
        ensures
            correction == if index < self@.len() {
                Some(self@[index as int])
            } else {
                None
            },
    {
        if index < self.pending.len() {
            Some(self.pending[index])
        } else {
            None
        }
    }

    /// Takes in `correction` where there is room and drops it where there is
    /// none; says whether it was taken in.
    pub fn insert(&mut self, correction: Correction) -> (accepted: bool)
        requires
            old(self).wf(),
        ensures
            final(self).wf(),
            final(self)@ == enqueued(old(self)@, correction),
            accepted == (old(self)@.len() < QUEUE_CAPACITY),
    {
        if self.pending.len() < QUEUE_CAPACITY {
            self.pending.push(correction);
            true
        } else {
            false
        }
    }

    /// Hands out, oldest first, every advisory whose time has come at the
    /// instant `now`, and keeps the others in their order.
    pub fn drain_due(&mut self, now: u64) -> (delivered: Vec<Correction>)
        requires
            old(self).wf(),
        ensures
            final(self).wf(),
            delivered@ == due(old(self)@, now as nat),
            final(self)@ == waiting(old(self)@, now as nat),
    {
        let ghost before = self.pending@;
        let ghost is_due = |c: Correction| c.display_time <= now as nat;
        let ghost is_held = |c: Correction| c.display_time > now as nat;
        let mut delivered: Vec<Correction> = Vec::new();
        let mut kept: Vec<Correction> = Vec::new();
        let mut index: usize = 0;
        while index < self.pending.len()
            invariant
                index <= self.pending.len(),
                self.pending@ == before,
                is_due == (|c: Correction| c.display_time <= now as nat),
                is_held == (|c: Correction| c.display_time > now as nat),
                delivered@ == before.take(index as int).filter(is_due),
                kept@ == before.take(index as int).filter(is_held),
            decreases self.pending.len() - index,
        {
            let correction = self.pending[index];
            proof {
                let seen = before.take(index as int);
                assert(before.take(index + 1) =~= seen.push(correction));
                seen.lemma_filter_push(correction, is_due);
                seen.lemma_filter_push(correction, is_held);
            }
            if correction.display_time <= now {
                delivered.push(correction);
            } else {
                kept.push(correction);
            }
            index = index + 1;
        }
        proof {
            assert(before.take(index as int) =~= before);
            before.lemma_filter_len(is_held);
        }
        self.pending = kept;
        delivered
    }
}

/// The advisories still held back once `ticks` sub-steps have followed the
/// instant `time`, the queue being polled at each of them.
pub open spec fn held_over(pending: Seq<Correction>, time: nat, ticks: nat) -> Seq<Correction> {
    if ticks == 0 {
        pending
    } else {
        waiting(pending, time + ticks)
    }
}

/// The advisories shown over the `ticks` sub-steps that follow the instant
/// `time`, in the order shown: sub-step by sub-step, and within one sub-step
/// in the order of arrival.
pub open spec fn shown_over(pending: Seq<Correction>, time: nat, ticks: nat) -> Seq<Correction>
    decreases ticks,
{
    if ticks == 0 {
        Seq::empty()
    } else {
        shown_over(pending, time, (ticks - 1) as nat) + due(
            held_over(pending, time, (ticks - 1) as nat),
            time + ticks,
        )
    }
}

/// Polling at an instant and then at a later one holds back what one poll at
/// the later instant holds back.
pub proof fn lemma_waiting_twice(pending: Seq<Correction>, earlier: nat, later: nat)
    requires
        earlier <= later,
    ensures
        waiting(waiting(pending, earlier), later) == waiting(pending, later),
    decreases pending.len(),
{
    let held_earlier = |c: Correction| c.display_time > earlier;
    let held_later = |c: Correction| c.display_time > later;
    if pending.len() == 0 {
        pending.lemma_filter_len(held_earlier);
        pending.lemma_filter_len(held_later);
        assert(waiting(pending, earlier) =~= pending);
        assert(waiting(pending, later) =~= pending);
    } else {
        let rest = pending.drop_last();
        let last = pending.last();
        assert(pending =~= rest.push(last));
        lemma_waiting_twice(rest, earlier, later);
        rest.lemma_filter_push(last, held_earlier);
        rest.lemma_filter_push(last, held_later);
        if held_earlier(last) {
            waiting(rest, earlier).lemma_filter_push(last, held_later);
        }
    }
}

/// What a poll at a later instant shows of what an earlier poll held back:
/// an advisory of `pending` is among it if and only if its display time lies
/// after the earlier instant and not after the later one.
pub proof fn lemma_shown_between(
    pending: Seq<Correction>,
    correction: Correction,
    earlier: nat,
    later: nat,
)
    requires
        pending.contains(correction),
    ensures
        due(waiting(pending, earlier), later).contains(correction) <==> earlier
            < correction.display_time <= later,
{
    lemma_shown_when_due(pending, correction, earlier);
    if waiting(pending, earlier).contains(correction) {
        lemma_shown_when_due(waiting(pending, earlier), correction, later);
    }
    if due(waiting(pending, earlier), later).contains(correction) {
        let is_due = |c: Correction| c.display_time <= later;
        waiting(pending, earlier).lemma_filter_contains_rev(is_due, correction);
    }
}

/// An advisory that waits at the instant `time` has been shown within the
/// `ticks` sub-steps that follow if and only if its display time has come by
/// the last of them: it is shown at the first sub-step at or after its
/// display time, and at none before.
pub proof fn lemma_shown_by(pending: Seq<Correction>, correction: Correction, time: nat, ticks: nat)
    requires
        pending.contains(correction),
        ticks > 0,
    ensures
        shown_over(pending, time, ticks).contains(correction) <==> correction.display_time <= time
            + ticks,
    decreases ticks,
{
    let before = shown_over(pending, time, (ticks - 1) as nat);
    let batch = due(held_over(pending, time, (ticks - 1) as nat), time + ticks);
    assert(shown_over(pending, time, ticks) == before + batch);
    assert((before + batch).contains(correction) <==> before.contains(correction)
        || batch.contains(correction)) by {
        if before.contains(correction) {
            let i = choose|i: int| 0 <= i < before.len() && before[i] == correction;
            assert((before + batch)[i] == correction);
        }
        if batch.contains(correction) {
            let i = choose|i: int| 0 <= i < batch.len() && batch[i] == correction;
            assert((before + batch)[before.len() + i] == correction);
        }
        if (before + batch).contains(correction) {
            let all = before + batch;
            let i = choose|i: int| 0 <= i < all.len() && all[i] == correction;
            if i < before.len() {
                assert(before[i] == correction);
            } else {
                assert(batch[i - before.len()] == correction);
            }
        }
    }
    if ticks == 1 {
        assert(before =~= Seq::<Correction>::empty());
        lemma_shown_when_due(pending, correction, time + 1);
    } else {
        lemma_shown_by(pending, correction, time, (ticks - 1) as nat);
        lemma_shown_between(pending, correction, (time + ticks - 1) as nat, time + ticks);
    }
}

/// An advisory that arrives at the instant `time` at a queue with room is
/// shown at the first sub-step at or after its display time, and at none
/// before: it has been shown within the `ticks` sub-steps that follow if and
/// only if its display time has come by the last of them.
pub proof fn lemma_inserted_is_shown_when_due(
    pending: Seq<Correction>,
    correction: Correction,
    time: nat,
    ticks: nat,
)
    requires
        pending.len() < QUEUE_CAPACITY,
        ticks > 0,
    ensures
        enqueued(pending, correction).len() <= QUEUE_CAPACITY,
        shown_over(enqueued(pending, correction), time, ticks).contains(correction)
            <==> correction.display_time <= time + ticks,
        held_over(enqueued(pending, correction), time, ticks).contains(correction)
            <==> correction.display_time > time + ticks,
{
    let joined = enqueued(pending, correction);
    assert(joined[pending.len() as int] == correction);
    lemma_shown_by(joined, correction, time, ticks);
    lemma_shown_when_due(joined, correction, time + ticks);
}

/// An advisory that waits is shown at an instant if and only if its display
/// time has come by then, and is held back if and only if it has not.
pub proof fn lemma_shown_when_due(pending: Seq<Correction>, correction: Correction, now: nat)
    requires
        pending.contains(correction),
    ensures
        due(pending, now).contains(correction) <==> correction.display_time <= now,
        waiting(pending, now).contains(correction) <==> correction.display_time > now,
{
    let is_due = |c: Correction| c.display_time <= now;
    let is_held = |c: Correction| c.display_time > now;
    let place = choose|i: int| 0 <= i < pending.len() && pending[i] == correction;
    if is_due(correction) {
        pending.lemma_filter_contains(is_due, place);
    } else {
        pending.lemma_filter_contains(is_held, place);
    }
    if due(pending, now).contains(correction) {
        let shown = choose|i: int|
            0 <= i < due(pending, now).len() && due(pending, now)[i] == correction;
        pending.lemma_filter_pred(is_due, shown);
    }
    if waiting(pending, now).contains(correction) {
        let held = choose|i: int|
            0 <= i < waiting(pending, now).len() && waiting(pending, now)[i] == correction;
        pending.lemma_filter_pred(is_held, held);
    }
}

} // verus!
