//! The debounce engine: a pure state machine over events and clock readings.
//!
//! Time is a count of ticks on whatever clock the caller injects; the gap is
//! measured in the same ticks. A clock that runs backwards yields an elapsed
//! time of zero.

use vstd::prelude::*;
use crate::activity::{Activity, Event};

verus! {

/// The mathematical state of the engine.
pub struct EngineState {
    /// Least time without motion after which the pointer counts as inactive.
    pub min_movement_gap: nat,
    /// Clock reading taken at the latest motion pulse (at construction, before any).
    pub last_move_time: nat,
    /// The classification last arrived at.
    pub last_is_active: bool,
}

/// Time that has passed from `since` to `now`; zero where `now` is the earlier one.
pub open spec fn elapsed(now: nat, since: nat) -> nat {
    if now >= since {
        (now - since) as nat
    } else {
        0
    }
}

impl EngineState {
    /// The state a new engine starts in when the clock reads `now`.
    pub open spec fn initial(min_movement_gap: nat, now: nat) -> EngineState {
        EngineState { min_movement_gap, last_move_time: now, last_is_active: false }
    }

    /// Whether handling `event` in this state consults the clock at all.
    pub open spec fn reads_clock(self, event: Event) -> bool {
        event == Event::Mousemove || self.last_is_active
    }

    /// Whether the pointer counts as moving once `event` has been handled at `now`.
    pub open spec fn moving_after(self, event: Event, now: nat) -> bool {
        match event {
            Event::Mousemove => true,
            Event::TimePassed => self.last_is_active && elapsed(now, self.last_move_time)
                < self.min_movement_gap,
        }
    }

    /// The state after `event` has been handled with the clock reading `now`.
    pub open spec fn step(self, event: Event, now: nat) -> EngineState {
        EngineState {
            min_movement_gap: self.min_movement_gap,
            last_move_time: if event == Event::Mousemove {
                now
            } else {
                self.last_move_time
            },
            last_is_active: self.moving_after(event, now),
        }
    }

    /// What consumers are told when `event` is handled at `now`: the new
    /// classification where it differs from the old one, else nothing.
    pub open spec fn notification(self, event: Event, now: nat) -> Option<Activity> {
        if self.moving_after(event, now) != self.last_is_active {
            Some(Activity::of(self.moving_after(event, now)))
        } else {
            None
        }
    }
}

/// What handling `event` under the clock `get_now` does to the engine:
/// `pre` before, `post` and `notify` after.
///
/// Where the event needs no clock reading, nothing is read and nothing
/// changes. Otherwise the state steps on one reading of the clock, and the
/// notification is the one due at that reading.
pub open spec fn advanced_under<C: FnMut() -> u128>(
    pre: EngineState,
    event: Event,
    get_now: C,
    post: EngineState,
    notify: Option<Activity>,
) -> bool {
    if pre.reads_clock(event) {
        exists|now: u128|
            {
                &&& #[trigger] call_ensures(get_now, (), now)
                &&& post == pre.step(event, now as nat)
                &&& notify == pre.notification(event, now as nat)
            }
    } else {
        post == pre && notify.is_none()
    }
}

/// The engine's state: one time constant, one clock reading, one flag.
#[derive(Copy, Clone, Debug)]
pub struct DebounceEngine {
    min_movement_gap: u128,
    last_move_time: u128,
    last_is_active: bool,
}

impl View for DebounceEngine {
    type V = EngineState;

    closed spec fn view(&self) -> EngineState {
        EngineState {
            min_movement_gap: self.min_movement_gap as nat,
            last_move_time: self.last_move_time as nat,
            last_is_active: self.last_is_active,
        }
    }
}

impl DebounceEngine {
    /// An engine that classifies the pointer as inactive and takes `now`
    /// as the time of the latest motion.
    pub fn new(min_movement_gap: u128, now: u128) -> (engine: DebounceEngine)
        ensures
            engine@ == EngineState::initial(min_movement_gap as nat, now as nat),
    {
        DebounceEngine { min_movement_gap, last_move_time: now, last_is_active: false }
    }

    /// Whether handling `event` needs a clock reading. Where it does not,
    /// the event changes nothing and notifies nobody.
    pub fn reads_clock(&self, event: Event) -> (needed: bool)
        ensures
            needed == self@.reads_clock(event),
            !needed ==> forall|now: nat|
                #![trigger self@.step(event, now)]
                #![trigger self@.notification(event, now)]
                self@.step(event, now) == self@ && self@.notification(event, now).is_none(),
    {
        match event {
            Event::Mousemove => true,
            Event::TimePassed => self.last_is_active,
        }
    }

    /// Handles `event` with the clock reading `now`, and returns the
    /// notification that is due, if any.
    pub fn advance(&mut self, event: Event, now: u128) -> (notify: Option<Activity>)
        ensures
            final(self)@ == old(self)@.step(event, now as nat),
            notify == old(self)@.notification(event, now as nat),
    {
        let was_active = self.last_is_active;
        let is_active = match event {
            Event::Mousemove => {
                self.last_move_time = now;
                true
            },
            Event::TimePassed => {
                let since: u128 = if now >= self.last_move_time {
                    now - self.last_move_time
                } else {
                    0
                };
                was_active && since < self.min_movement_gap
            },
        };
        self.last_is_active = is_active;
        if is_active != was_active {
            Some(Activity::from_moving(is_active))
        } else {
            None
        }
    }

    /// Handles `event` under the clock `get_now`, which is read where the
    /// event needs a reading and not otherwise, and returns the notification
    /// that is due, if any.
    pub fn advance_under<C: FnMut() -> u128>(
        &mut self,
        event: Event,
        get_now: &mut C,
    ) -> (notify: Option<Activity>)
        requires
            call_requires(*old(get_now), ()),
        ensures
            *final(get_now) == *old(get_now),
            advanced_under(old(self)@, event, *old(get_now), final(self)@, notify),
    {
        if !self.reads_clock(event) {
            return None;
        }
        let now: u128 = get_now();
        self.advance(event, now)
    }

    /// The classification last arrived at.
    pub fn activity(&self) -> (activity: Activity)
        ensures
            activity == Activity::of(self@.last_is_active),
    {
        Activity::from_moving(self.last_is_active)
    }

    /// Whether the classification last arrived at is `Active`.
    pub fn last_is_active(&self) -> (active: bool)
        ensures
            active == self@.last_is_active,
    {
        self.last_is_active
    }

    /// The clock reading taken at the latest motion pulse.
    pub fn last_move_time(&self) -> (time: u128)
        ensures
            time as nat == self@.last_move_time,
    {
        self.last_move_time
    }

    /// The configured debounce gap.
    pub fn min_movement_gap(&self) -> (gap: u128)
        ensures
            gap as nat == self@.min_movement_gap,
    {
        self.min_movement_gap
    }
}

} // verus!
