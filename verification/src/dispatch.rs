//! The action dispatcher: what becomes of a transition once the engine
//! has reported it.
//!
//! The dispatcher decides which effects a transition calls for and in what
//! order; performing an effect is left to a callback, so that printing,
//! forwarding and launching stay outside. The effects of a transition are
//! independent of each other: each is performed whatever became of the others.

use vstd::prelude::*;
use vstd::string::StringExecFns;
use crate::activity::Activity;

verus! {

/// Why a transition could not be delivered.
#[derive(Debug, PartialEq, Eq)]
pub enum DispatchError {
    /// The consumer that transitions are forwarded to is gone.
    ConsumerGone,
    /// A configured program could not be started.
    LaunchFailed { program: String, cause: String },
}

impl DispatchError {
    /// The text of this error for the operator.
    pub open spec fn message_text(self) -> Seq<char> {
        match self {
            DispatchError::ConsumerGone => "sending on a closed channel"@,
            DispatchError::LaunchFailed { program, cause } => "Failed to run "@ + program@ + ": "@
                + cause@,
        }
    }

    /// The text of this error for the operator.
    pub fn message(&self) -> (text: String)
        ensures
            text@ == self.message_text(),
    {
        match self {
            DispatchError::ConsumerGone => String::from_str("sending on a closed channel"),
            DispatchError::LaunchFailed { program, cause } => {
                let mut text = String::from_str("Failed to run ");
                text.append(program.as_str());
                text.append(": ");
                text.append(cause.as_str());
                text
            },
        }
    }
}

/// How transitions are announced.
#[derive(Copy, Clone, Debug, PartialEq, Eq, Structural)]
pub enum Mode {
    /// Not at all.
    Quiet,
    /// As a line on the operator's output.
    Print,
    /// By forwarding them to the chart.
    Chart,
}

impl Mode {
    /// The mode that the two switches select: quiet wins over everything,
    /// and the chart takes the place of printing.
    pub open spec fn of(quiet: bool, chart: bool) -> Mode {
        if quiet {
            Mode::Quiet
        } else if chart {
            Mode::Chart
        } else {
            Mode::Print
        }
    }

    /// The mode that the two switches select.
    pub fn select(quiet: bool, chart: bool) -> (mode: Mode)
        ensures
            mode == Mode::of(quiet, chart),
    {
        match (quiet, chart) {
            (false, false) => Mode::Print,
            (false, true) => Mode::Chart,
            (true, _) => Mode::Quiet,
        }
    }
}

/// One observable effect of a transition. `P` is whatever names a program.
pub enum Effect<P> {
    /// Print the label of the classification.
    Print(Activity),
    /// Hand the classification to the chart.
    Forward(Activity),
    /// Start the program, detached, without waiting for it.
    Launch(P),
}

/// What the dispatcher is configured with.
pub struct DispatchConfig<P> {
    pub mode: Mode,
    /// The program to start when the pointer becomes active.
    pub on_active: Option<P>,
    /// The program to start when the pointer becomes inactive.
    pub on_inactive: Option<P>,
}

/// The effects of the transition to `activity` under `mode`, where
/// `program` is what is configured for it, in the order in which they are
/// performed: the announcement, if the mode has one, then the launch, if
/// there is a program.
pub open spec fn effects_of<P>(
    mode: Mode,
    activity: Activity,
    program: Option<P>,
) -> Seq<Effect<P>> {
    let announcement = match mode {
        Mode::Quiet => Seq::empty(),
        Mode::Print => seq![Effect::Print(activity)],
        Mode::Chart => seq![Effect::Forward(activity)],
    };
    match program {
        Some(program) => announcement.push(Effect::Launch(program)),
        None => announcement,
    }
}

impl<P> DispatchConfig<P> {
    /// The program configured for the transition to `activity`.
    pub open spec fn program_for(self, activity: Activity) -> Option<P> {
        match activity {
            Activity::Active => self.on_active,
            Activity::Inactive => self.on_inactive,
        }
    }

    /// The effects of the transition to `activity`, in order.
    pub open spec fn effects(self, activity: Activity) -> Seq<Effect<P>> {
        effects_of(self.mode, activity, self.program_for(activity))
    }

    /// A configuration from the operator's choices.
    pub fn new(
        on_active: Option<P>,
        on_inactive: Option<P>,
        quiet: bool,
        chart: bool,
    ) -> (config: DispatchConfig<P>)
        ensures
            config == (DispatchConfig { mode: Mode::of(quiet, chart), on_active, on_inactive }),
    {
        DispatchConfig { mode: Mode::select(quiet, chart), on_active, on_inactive }
    }
}

/// The effects of one transition, ready to be performed.
fn plan<P>(mode: Mode, activity: Activity, program: Option<P>) -> (effects: Vec<Effect<P>>)
    ensures
        effects@ == effects_of(mode, activity, program),
{
    let mut effects: Vec<Effect<P>> = Vec::new();
    match mode {
        Mode::Quiet => {},
        Mode::Print => effects.push(Effect::Print(activity)),
        Mode::Chart => effects.push(Effect::Forward(activity)),
    }
    match program {
        Some(program) => effects.push(Effect::Launch(program)),
        None => {},
    }
    effects
}

/// What performing all of `effects`, in order, comes to. Every effect is
/// performed, whatever became of the ones before it: a failure holds up
/// none of the others. The result is `Ok` where all of them succeeded, else
/// the error of the first one that failed.
pub open spec fn performed<P, F: FnMut(&Effect<P>) -> Result<(), DispatchError>>(
    perform: F,
    effects: Seq<Effect<P>>,
    result: Result<(), DispatchError>,
) -> bool {
    match result {
        Ok(_) => forall|i: int|
            0 <= i < effects.len() ==> call_ensures(
                perform,
                (&#[trigger] effects[i],),
                Ok::<(), DispatchError>(()),
            ),
        Err(error) => exists|k: int|
            {
                &&& 0 <= k < effects.len()
                &&& call_ensures(
                    perform,
                    (&#[trigger] effects[k],),
                    Err::<(), DispatchError>(error),
                )
                &&& forall|i: int|
                    0 <= i < k ==> call_ensures(
                        perform,
                        (&#[trigger] effects[i],),
                        Ok::<(), DispatchError>(()),
                    )
                &&& forall|i: int|
                    k < i < effects.len() ==> was_performed(perform, #[trigger] effects[i])
            },
    }
}

/// A call of the callback on `effect` has come to some outcome, whichever.
pub open spec fn was_performed<P, F: FnMut(&Effect<P>) -> Result<(), DispatchError>>(
    perform: F,
    effect: Effect<P>,
) -> bool {
    exists|outcome: Result<(), DispatchError>| #[trigger] call_ensures(perform, (&effect,), outcome)
}

/// Turns each transition into its effects and has them performed, one
/// after the other, by the callback it was given.
pub struct Dispatcher<P, F> {
    when_active: Vec<Effect<P>>,
    when_inactive: Vec<Effect<P>>,
    perform: F,
}

impl<P, F: FnMut(&Effect<P>) -> Result<(), DispatchError>> Dispatcher<P, F> {
    /// The effects that the transition to `activity` calls for, in order.
    pub closed spec fn effects(&self, activity: Activity) -> Seq<Effect<P>> {
        match activity {
            Activity::Active => self.when_active@,
            Activity::Inactive => self.when_inactive@,
        }
    }

    /// The callback that performs an effect.
    pub closed spec fn performer(&self) -> F {
        self.perform
    }

    /// The callback accepts every effect.
    pub open spec fn callable(&self) -> bool {
        forall|effect: Effect<P>| call_requires(self.performer(), (&effect,))
    }

    /// A dispatcher for the given configuration.
    pub fn new(config: DispatchConfig<P>, perform: F) -> (dispatcher: Dispatcher<P, F>)
        requires
            forall|effect: Effect<P>| call_requires(perform, (&effect,)),
        ensures
            dispatcher.callable(),
            dispatcher.performer() == perform,
            forall|activity: Activity| #[trigger]
                dispatcher.effects(activity) == config.effects(activity),
    {
        let DispatchConfig { mode, on_active, on_inactive } = config;
        Dispatcher {
            when_active: plan(mode, Activity::Active, on_active),
            when_inactive: plan(mode, Activity::Inactive, on_inactive),
            perform,
        }
    }

    /// Performs the effects of the transition to `activity`, all of them,
    /// in order, and hands back the first failure if there was one.
    pub fn dispatch(&mut self, activity: Activity) -> (result: Result<(), DispatchError>)
        requires
            old(self).callable(),
        ensures
            final(self).callable(),
            final(self).performer() == old(self).performer(),
            forall|any: Activity| #[trigger] final(self).effects(any) == old(self).effects(any),
            performed(old(self).performer(), old(self).effects(activity), result),
    {
        let effects = match activity {
            Activity::Active => &self.when_active,
            Activity::Inactive => &self.when_inactive,
        };
        assert(self.performer() == self.perform);
        let mut result: Result<(), DispatchError> = Ok(());
        let ghost mut failed_at: int = 0;
        let mut i: usize = 0;
        while i < effects.len()
            invariant
                i <= effects.len(),
                effects@ == old(self).effects(activity),
                self.perform == old(self).perform,
                self.when_active == old(self).when_active,
                self.when_inactive == old(self).when_inactive,
                forall|effect: Effect<P>| call_requires(self.perform, (&effect,)),
                match result {
                    Ok(_) => forall|j: int|
                        0 <= j < i ==> call_ensures(
                            self.perform,
                            (&#[trigger] effects@[j],),
                            Ok::<(), DispatchError>(()),
                        ),
                    Err(error) => {
                        &&& 0 <= failed_at < i
                        &&& call_ensures(
                            self.perform,
                            (&effects@[failed_at],),
                            Err::<(), DispatchError>(error),
                        )
                        &&& forall|j: int|
                            0 <= j < failed_at ==> call_ensures(
                                self.perform,
                                (&#[trigger] effects@[j],),
                                Ok::<(), DispatchError>(()),
                            )
                        &&& forall|j: int|
                            failed_at < j < i ==> was_performed(
                                self.perform,
                                #[trigger] effects@[j],
                            )
                    },
                },
            decreases effects.len() - i,
        {
            let outcome = (self.perform)(&effects[i]);
            if result.is_ok() {
                proof {
                    if outcome is Err {
                        failed_at = i as int;
                    } else {
                        assert(outcome == Ok::<(), DispatchError>(outcome->Ok_0));
                    }
                }
                result = outcome;
            }
            i = i + 1;
        }
        result
    }
}

} // verus!
