//! The engine wired to its clock and its dispatcher.

use vstd::prelude::*;
use crate::activity::{Activity, Event};
use crate::dispatch::DispatchError;
use crate::engine::{DebounceEngine, EngineState};

verus! {

/// A debounce engine together with the two callbacks it works with:
/// `get_now` reads the clock, in ticks, and `on_activity` is told of each
/// change of classification.
pub struct Handler<D, C> {
    on_activity: D,
    get_now: C,
    engine: DebounceEngine,
}

/// What a handler is made of, as contracts see it.
pub struct HandlerView<D, C> {
    pub state: EngineState,
    pub on_activity: D,
    pub get_now: C,
}

impl<D, C> View for Handler<D, C> {
    type V = HandlerView<D, C>;

    closed spec fn view(&self) -> HandlerView<D, C> {
        HandlerView { state: self.engine@, on_activity: self.on_activity, get_now: self.get_now }
    }
}

/// What handling `event` does to a handler: `pre` before, `post` and `result` after.
///
/// Where the event needs no clock reading, nothing happens at all. Otherwise
/// the state steps on one reading of the clock. Where a notification is due
/// the result is what the dispatcher answered to it, and the state has
/// stepped whatever that answer was; where none is due the result is `Ok`.
pub open spec fn handled<D: FnMut(Activity) -> Result<(), DispatchError>, C: FnMut() -> u128>(
    pre: HandlerView<D, C>,
    event: Event,
    post: HandlerView<D, C>,
    result: Result<(), DispatchError>,
) -> bool {
    &&& post.on_activity == pre.on_activity
    &&& post.get_now == pre.get_now
    &&& if pre.state.reads_clock(event) {
        exists|now: u128|
            {
                &&& #[trigger] call_ensures(pre.get_now, (), now)
                &&& post.state == pre.state.step(event, now as nat)
                &&& match pre.state.notification(event, now as nat) {
                    Some(activity) => call_ensures(pre.on_activity, (activity,), result),
                    None => result == Ok::<(), DispatchError>(()),
                }
            }
    } else {
        post.state == pre.state && result == Ok::<(), DispatchError>(())
    }
}

/// Builds a handler that starts out inactive. The clock is read once, and
/// that reading stands for the time of the latest motion until a pulse arrives.
pub fn get_handler<D: FnMut(Activity) -> Result<(), DispatchError>, C: FnMut() -> u128>(
    on_activity: D,
    get_now: C,
    min_movement_gap: u128,
) -> (handler: Handler<D, C>)
    requires
        forall|activity: Activity| call_requires(on_activity, (activity,)),
        call_requires(get_now, ()),
    ensures
        handler.callable(),
        handler@.on_activity == on_activity,
        handler@.get_now == get_now,
        exists|now: u128|
            {
                &&& #[trigger] call_ensures(get_now, (), now)
                &&& handler@.state == EngineState::initial(min_movement_gap as nat, now as nat)
            },
{
    let mut get_now = get_now;
    let now: u128 = get_now();
    Handler { on_activity, get_now, engine: DebounceEngine::new(min_movement_gap, now) }
}

impl<D: FnMut(Activity) -> Result<(), DispatchError>, C: FnMut() -> u128> Handler<D, C> {
    /// Both callbacks accept every call that the handler may make.
    pub open spec fn callable(&self) -> bool {
        &&& forall|activity: Activity| call_requires(self@.on_activity, (activity,))
        &&& call_requires(self@.get_now, ())
    }

    /// Feeds one event to the engine and notifies the dispatcher if the
    /// classification changed. A failure of the dispatcher is handed back
    /// as it came; the change of state stands all the same.
    pub fn handle(&mut self, event: Event) -> (result: Result<(), DispatchError>)
        requires
            old(self).callable(),
        ensures
            final(self).callable(),
            handled(old(self)@, event, final(self)@, result),
    {
        assert(self@.on_activity == self.on_activity);
        match self.engine.advance_under(event, &mut self.get_now) {
            Some(activity) => (self.on_activity)(activity),
            None => Ok(()),
        }
    }

    /// The classification last arrived at.
    pub fn activity(&self) -> (activity: Activity)
        ensures
            activity == Activity::of(self@.state.last_is_active),
    {
        self.engine.activity()
    }

    /// The engine inside.
    pub fn engine(&self) -> (engine: &DebounceEngine)
        ensures
            engine@ == self@.state,
    {
        &self.engine
    }
}

} // verus!
