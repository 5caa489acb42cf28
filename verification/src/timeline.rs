//! What the engine does over a whole sequence of events.
//!
//! Each event is taken together with the clock reading under which it is
//! handled. The functions here fold the single step over such a sequence,
//! and the proofs state what every run has in common.

use vstd::prelude::*;
use crate::activity::{Activity, Event};
use crate::engine::{elapsed, DebounceEngine, EngineState};

verus! {

/// An event together with the clock reading under which it is handled.
pub struct Stimulus {
    pub event: Event,
    pub now: nat,
}

/// An event together with the clock reading under which it is handled,
/// as a value that can be stored and replayed.
#[derive(Copy, Clone, Debug, PartialEq, Eq, Structural)]
pub struct TimedEvent {
    pub event: Event,
    pub now: u128,
}

impl View for TimedEvent {
    type V = Stimulus;

    open spec fn view(&self) -> Stimulus {
        Stimulus { event: self.event, now: self.now as nat }
    }
}

/// The stimuli that a recorded sequence stands for.
pub open spec fn stimuli(recorded: Seq<TimedEvent>) -> Seq<Stimulus> {
    recorded.map_values(|timed: TimedEvent| timed@)
}

/// The state after all of `inputs` have been handled, in order, from `start`.
pub open spec fn run(start: EngineState, inputs: Seq<Stimulus>) -> EngineState
    decreases inputs.len(),
{
    if inputs.len() == 0 {
        start
    } else {
        run(start, inputs.drop_last()).step(inputs.last().event, inputs.last().now)
    }
}

/// The notifications sent while `inputs` are handled, in order, from `start`.
pub open spec fn notifications(start: EngineState, inputs: Seq<Stimulus>) -> Seq<Activity>
    decreases inputs.len(),
{
    if inputs.len() == 0 {
        Seq::empty()
    } else {
        let earlier = notifications(start, inputs.drop_last());
        let before = run(start, inputs.drop_last());
        match before.notification(inputs.last().event, inputs.last().now) {
            Some(activity) => earlier.push(activity),
            None => earlier,
        }
    }
}

impl DebounceEngine {
    /// Handles a recorded sequence of events, each under its own clock
    /// reading, and returns the notifications that were due, in order.
    pub fn replay(&mut self, recorded: &Vec<TimedEvent>) -> (sent: Vec<Activity>)
        ensures
            final(self)@ == run(old(self)@, stimuli(recorded@)),
            sent@ == notifications(old(self)@, stimuli(recorded@)),
    {
        let ghost start = self@;
        let ghost inputs = stimuli(recorded@);
        let mut sent: Vec<Activity> = Vec::new();
        let mut i: usize = 0;
        while i < recorded.len()
            invariant
                i <= recorded.len(),
                inputs == stimuli(recorded@),
                self@ == run(start, inputs.take(i as int)),
                sent@ == notifications(start, inputs.take(i as int)),
            decreases recorded.len() - i,
        {
            proof {
                assert(inputs.take(i + 1).drop_last() == inputs.take(i as int));
            }
            match self.advance(recorded[i].event, recorded[i].now) {
                Some(activity) => sent.push(activity),
                None => {},
            }
            i = i + 1;
        }
        proof {
            assert(inputs.take(i as int) == inputs);
        }
        sent
    }
}

/// There is a motion pulse among `inputs`.
pub open spec fn has_motion(inputs: Seq<Stimulus>) -> bool {
    exists|i: int| 0 <= i < inputs.len() && (#[trigger] inputs[i]).event == Event::Mousemove
}

/// Every clock tick among `inputs` that follows motion comes less than
/// the gap after the latest motion before it. Motion is a pulse earlier
/// among `inputs`, or whatever made `start` active; ticks before any
/// motion may come at any time.
pub open spec fn ticks_within_gap(start: EngineState, inputs: Seq<Stimulus>) -> bool {
    forall|i: int|
        #![trigger inputs[i]]
        {
            &&& 0 <= i < inputs.len()
            &&& inputs[i].event == Event::TimePassed
            &&& start.last_is_active || has_motion(inputs.take(i))
        } ==> elapsed(inputs[i].now, run(start, inputs.take(i)).last_move_time)
            < start.min_movement_gap
}

/// All of `inputs` are clock ticks.
pub open spec fn only_ticks(inputs: Seq<Stimulus>) -> bool {
    forall|i: int| 0 <= i < inputs.len() ==> (#[trigger] inputs[i]).event == Event::TimePassed
}

/// One of `inputs` is read at least the gap after `since`.
pub open spec fn has_late_reading(inputs: Seq<Stimulus>, since: nat, gap: nat) -> bool {
    exists|i: int| 0 <= i < inputs.len() && elapsed((#[trigger] inputs[i]).now, since) >= gap
}

/// The readings of `inputs` never run backwards, and none comes more than
/// `poll` after the one before it; the first comes at most `poll` after `since`.
pub open spec fn polled(inputs: Seq<Stimulus>, since: nat, poll: nat) -> bool {
    &&& inputs.len() > 0 ==> since <= inputs[0].now <= since + poll
    &&& forall|i: int, j: int|
        #![trigger inputs[i], inputs[j]]
        0 <= i && j == i + 1 && j < inputs.len() ==> inputs[i].now <= inputs[j].now
            <= inputs[i].now + poll
}

/// Handling never changes the configured gap.
pub proof fn lemma_run_keeps_gap(start: EngineState, inputs: Seq<Stimulus>)
    ensures
        run(start, inputs).min_movement_gap == start.min_movement_gap,
    decreases inputs.len(),
{
    if inputs.len() > 0 {
        lemma_run_keeps_gap(start, inputs.drop_last());
    }
}

/// Notifications alternate. No two in a row are equal, the first one is
/// the opposite of the classification that the run started with, and the
/// classification at the end is the last one sent (the starting one where
/// none was sent).
pub proof fn lemma_notifications_alternate(start: EngineState, inputs: Seq<Stimulus>)
    ensures
        forall|i: int|
            0 <= i < notifications(start, inputs).len() - 1 ==> #[trigger] notifications(
                start,
                inputs,
            )[i] != notifications(start, inputs)[i + 1],
        notifications(start, inputs).len() > 0 ==> notifications(start, inputs)[0]
            == Activity::of(!start.last_is_active),
        Activity::of(run(start, inputs).last_is_active) == if notifications(start, inputs).len()
            > 0 {
            notifications(start, inputs).last()
        } else {
            Activity::of(start.last_is_active)
        },
    decreases inputs.len(),
{
    if inputs.len() > 0 {
        lemma_notifications_alternate(start, inputs.drop_last());
    }
}

/// A burst of motion is reported once. Where no tick that follows motion
/// comes as late as the gap after it, a run that starts inactive sends a
/// single `Active` if it holds a motion pulse at all, however many it holds;
/// a run that starts active sends nothing.
pub proof fn lemma_motion_burst_notifies_once(start: EngineState, inputs: Seq<Stimulus>)
    requires
        ticks_within_gap(start, inputs),
    ensures
        notifications(start, inputs) == if !start.last_is_active && has_motion(inputs) {
            seq![Activity::Active]
        } else {
            Seq::<Activity>::empty()
        },
        run(start, inputs).last_is_active == (start.last_is_active || has_motion(inputs)),
    decreases inputs.len(),
{
    if inputs.len() > 0 {
        let earlier = inputs.drop_last();
        let last = inputs.last();
        assert(ticks_within_gap(start, earlier)) by {
            assert forall|i: int|
                #![trigger earlier[i]]
                {
                    &&& 0 <= i < earlier.len()
                    &&& earlier[i].event == Event::TimePassed
                    &&& start.last_is_active || has_motion(earlier.take(i))
                } implies elapsed(earlier[i].now, run(start, earlier.take(i)).last_move_time)
                < start.min_movement_gap by {
                assert(earlier.take(i) == inputs.take(i));
            }
        }
        lemma_motion_burst_notifies_once(start, earlier);
        lemma_run_keeps_gap(start, earlier);
        if has_motion(inputs) && last.event != Event::Mousemove {
            let i = choose|i: int|
                0 <= i < inputs.len() && (#[trigger] inputs[i]).event == Event::Mousemove;
            assert(earlier[i].event == Event::Mousemove);
        }
    }
}

/// From an active state, clock ticks alone send nothing and change nothing
/// as long as every reading comes less than the gap after the latest
/// motion; once a reading comes later, exactly one `Inactive` has been sent.
pub proof fn lemma_ticks_report_inactive_once_late(start: EngineState, inputs: Seq<Stimulus>)
    requires
        start.last_is_active,
        only_ticks(inputs),
    ensures
        !has_late_reading(inputs, start.last_move_time, start.min_movement_gap) ==> {
            &&& notifications(start, inputs) == Seq::<Activity>::empty()
            &&& run(start, inputs) == start
        },
        has_late_reading(inputs, start.last_move_time, start.min_movement_gap) ==> {
            &&& notifications(start, inputs) == seq![Activity::Inactive]
            &&& run(start, inputs) == EngineState { last_is_active: false, ..start }
        },
    decreases inputs.len(),
{
    let since = start.last_move_time;
    let gap = start.min_movement_gap;
    if inputs.len() > 0 {
        let earlier = inputs.drop_last();
        assert(only_ticks(earlier));
        lemma_ticks_report_inactive_once_late(start, earlier);
        if has_late_reading(inputs, since, gap) && !has_late_reading(earlier, since, gap) {
            let i = choose|i: int|
                0 <= i < inputs.len() && elapsed((#[trigger] inputs[i]).now, since) >= gap;
            if i < earlier.len() {
                assert(earlier[i] == inputs[i]);
            }
        }
    }
}

/// Once inactive, clock ticks are idle: whatever the clock reads and
/// however many there are, nothing is sent and the state stays as it is.
pub proof fn lemma_ticks_while_inactive_are_idle(start: EngineState, inputs: Seq<Stimulus>)
    requires
        !start.last_is_active,
        only_ticks(inputs),
    ensures
        notifications(start, inputs) == Seq::<Activity>::empty(),
        run(start, inputs) == start,
    decreases inputs.len(),
{
    if inputs.len() > 0 {
        let earlier = inputs.drop_last();
        assert(only_ticks(earlier));
        lemma_ticks_while_inactive_are_idle(start, earlier);
    }
}

/// Readings that never run backwards are in order.
proof fn lemma_polled_readings_are_ordered(
    inputs: Seq<Stimulus>,
    since: nat,
    poll: nat,
    i: int,
    j: int,
)
    requires
        polled(inputs, since, poll),
        0 <= i <= j < inputs.len(),
    ensures
        since <= inputs[i].now <= inputs[j].now,
    decreases j,
{
    if j > 0 {
        if i < j {
            lemma_polled_readings_are_ordered(inputs, since, poll, i, j - 1);
        } else {
            lemma_polled_readings_are_ordered(inputs, since, poll, i - 1, j - 1);
        }
    }
}

/// Inactivity is reported at most one poll interval late. From an active
/// state, under clock ticks whose readings lie at most `poll` apart, the
/// `Inactive` notification is sent at the first reading that comes the gap
/// or more after the latest motion, and that reading comes no more than the
/// gap and `poll` after it.
pub proof fn lemma_inactivity_is_reported_within_a_poll(
    start: EngineState,
    inputs: Seq<Stimulus>,
    poll: nat,
) -> (k: int)
    requires
        start.last_is_active,
        only_ticks(inputs),
        polled(inputs, start.last_move_time, poll),
        inputs.len() > 0,
        inputs.last().now >= start.last_move_time + start.min_movement_gap,
    ensures
        0 <= k < inputs.len(),
        notifications(start, inputs.take(k)) == Seq::<Activity>::empty(),
        notifications(start, inputs.take(k + 1)) == seq![Activity::Inactive],
        start.last_move_time + start.min_movement_gap <= inputs[k].now,
        inputs[k].now <= start.last_move_time + start.min_movement_gap + poll,
    decreases inputs.len(),
{
    let since = start.last_move_time;
    let gap = start.min_movement_gap;
    let earlier = inputs.drop_last();
    assert(only_ticks(earlier));
    assert(polled(earlier, since, poll));
    if earlier.len() > 0 && earlier.last().now >= since + gap {
        let k = lemma_inactivity_is_reported_within_a_poll(start, earlier, poll);
        assert(inputs.take(k) == earlier.take(k));
        assert(inputs.take(k + 1) == earlier.take(k + 1));
        k
    } else {
        let k = inputs.len() - 1;
        assert(inputs.take(k + 1) == inputs);
        assert(!has_late_reading(earlier, since, gap)) by {
            if has_late_reading(earlier, since, gap) {
                let i = choose|i: int|
                    0 <= i < earlier.len() && elapsed((#[trigger] earlier[i]).now, since) >= gap;
                lemma_polled_readings_are_ordered(earlier, since, poll, i, earlier.len() - 1);
            }
        }
        lemma_ticks_report_inactive_once_late(start, earlier);
        lemma_polled_readings_are_ordered(inputs, since, poll, k, k);
        k
    }
}

} // verus!
