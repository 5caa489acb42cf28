//! The activity monitor: the engine, its clock and its dispatcher as one
//! state, driven by what a wait for the next pulse comes to.

use vstd::prelude::*;
use crate::activity::Activity;
use crate::dispatch::{performed, DispatchConfig, DispatchError, Dispatcher, Effect};
use crate::engine::{advanced_under, DebounceEngine, EngineState};
use crate::input::Wait;

verus! {

/// What the caller of the monitor does next.
#[derive(Copy, Clone, Debug, PartialEq, Eq, Structural)]
pub enum Flow {
    /// Wait for the next pulse, for a poll interval at most.
    Continue,
    /// The input source is gone: end the run.
    Stop,
}

/// The state of the activity thread.
pub struct Monitor<P, F, C> {
    engine: DebounceEngine,
    dispatcher: Dispatcher<P, F>,
    get_now: C,
}

/// What a monitor is made of, as contracts see it.
pub struct MonitorView<P, F, C> {
    pub state: EngineState,
    pub dispatcher: Dispatcher<P, F>,
    pub get_now: C,
}

impl<P, F, C> View for Monitor<P, F, C> {
    type V = MonitorView<P, F, C>;

    closed spec fn view(&self) -> MonitorView<P, F, C> {
        MonitorView { state: self.engine@, dispatcher: self.dispatcher, get_now: self.get_now }
    }
}

/// What taking the outcome `wait` does to a monitor: `pre` before, `post`
/// and `result` after.
///
/// Where the input source is gone nothing happens, and the run is to stop.
/// Otherwise the outcome is an event to the engine, which steps as it does
/// under the monitor's clock. Where a notification is due, its effects are
/// performed, all of them, in order, and the first failure among them is
/// the result; where there is none, the run is to go on.
pub open spec fn waited<
    P,
    F: FnMut(&Effect<P>) -> Result<(), DispatchError>,
    C: FnMut() -> u128,
>(
    pre: MonitorView<P, F, C>,
    wait: Wait,
    post: MonitorView<P, F, C>,
    result: Result<Flow, DispatchError>,
) -> bool {
    &&& post.get_now == pre.get_now
    &&& post.dispatcher.performer() == pre.dispatcher.performer()
    &&& forall|any: Activity| #[trigger]
        post.dispatcher.effects(any) == pre.dispatcher.effects(any)
    &&& match wait.event_of() {
        None => post.state == pre.state && result == Ok::<Flow, DispatchError>(Flow::Stop),
        Some(event) => exists|notify: Option<Activity>|
            {
                &&& #[trigger] advanced_under(pre.state, event, pre.get_now, post.state, notify)
                &&& match notify {
                    None => result == Ok::<Flow, DispatchError>(Flow::Continue),
                    Some(activity) => {
                        &&& performed(
                            pre.dispatcher.performer(),
                            pre.dispatcher.effects(activity),
                            match result {
                                Ok(_) => Ok(()),
                                Err(error) => Err(error),
                            },
                        )
                        &&& result is Ok ==> result == Ok::<Flow, DispatchError>(Flow::Continue)
                    },
                }
            },
    }
}

impl<P, F: FnMut(&Effect<P>) -> Result<(), DispatchError>, C: FnMut() -> u128> Monitor<P, F, C> {
    /// The callbacks accept every call that the monitor may make.
    pub open spec fn callable(&self) -> bool {
        self@.dispatcher.callable() && call_requires(self@.get_now, ())
    }

    /// A monitor that starts out inactive. The clock is read once, and that
    /// reading stands for the time of the latest motion until a pulse arrives.
    pub fn new(
        config: DispatchConfig<P>,
        perform: F,
        get_now: C,
        min_movement_gap: u128,
    ) -> (monitor: Monitor<P, F, C>)
        requires
            forall|effect: Effect<P>| call_requires(perform, (&effect,)),
            call_requires(get_now, ()),
        ensures
            monitor.callable(),
            monitor@.get_now == get_now,
            monitor@.dispatcher.performer() == perform,
            forall|activity: Activity| #[trigger]
                monitor@.dispatcher.effects(activity) == config.effects(activity),
            exists|now: u128|
                {
                    &&& #[trigger] call_ensures(get_now, (), now)
                    &&& monitor@.state == EngineState::initial(
                        min_movement_gap as nat,
                        now as nat,
                    )
                },
    {
        let mut get_now = get_now;
        let now: u128 = get_now();
        Monitor {
            engine: DebounceEngine::new(min_movement_gap, now),
            dispatcher: Dispatcher::new(config, perform),
            get_now,
        }
    }

    /// Takes the outcome of one wait for a pulse: feeds the engine, has the
    /// effects of a change of classification performed, and says whether the
    /// run goes on. The engine has stepped even where an effect failed.
    pub fn on_wait(&mut self, wait: Wait) -> (result: Result<Flow, DispatchError>)
        requires
            old(self).callable(),
        ensures
            final(self).callable(),
            waited(old(self)@, wait, final(self)@, result),
    {
        let event = match wait.event() {
            Some(event) => event,
            None => {
                return Ok(Flow::Stop);
            },
        };
        let notify = self.engine.advance_under(event, &mut self.get_now);
        let result = match notify {
            None => Ok(Flow::Continue),
            Some(activity) => match self.dispatcher.dispatch(activity) {
                Ok(_) => Ok(Flow::Continue),
                Err(error) => Err(error),
            },
        };
        assert(advanced_under(old(self)@.state, event, old(self)@.get_now, self@.state, notify));
        result
    }

    /// The engine inside.
    pub fn engine(&self) -> (engine: &DebounceEngine)
        ensures
            engine@ == self@.state,
    {
        &self.engine
    }
}

} // verus!
