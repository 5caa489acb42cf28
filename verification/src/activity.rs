//! The two-valued activity signal and the stimuli that drive it.

use vstd::prelude::*;

verus! {

/// The classification of the pointer that consumers are told about.
#[derive(Copy, Clone, Debug, PartialEq, Eq, Structural)]
pub enum Activity {
    Inactive,
    Active,
}

/// A stimulus for the debounce engine.
#[derive(Copy, Clone, Debug, PartialEq, Eq, Structural)]
pub enum Event {
    /// A motion pulse arrived.
    Mousemove,
    /// The periodic clock fired and no motion had arrived.
    TimePassed,
}

/// A unit signal: motion was seen at about the instant it is received.
#[derive(Copy, Clone, Debug, PartialEq, Eq, Structural)]
pub struct MotionPulse;

impl Activity {
    /// The classification that goes with "the pointer is moving" being `moving`.
    pub open spec fn of(moving: bool) -> Activity {
        if moving {
            Activity::Active
        } else {
            Activity::Inactive
        }
    }

    /// The line that announces this classification.
    pub open spec fn label_text(self) -> Seq<char> {
        match self {
            Activity::Active => "ACTIVE"@,
            Activity::Inactive => "INACTIVE"@,
        }
    }

    /// The height at which this classification is drawn.
    pub open spec fn level_of(self) -> int {
        match self {
            Activity::Active => 1,
            Activity::Inactive => -1,
        }
    }

    /// The classification that goes with "the pointer is moving" being `moving`.
    pub fn from_moving(moving: bool) -> (activity: Activity)
        ensures
            activity == Activity::of(moving),
    {
        if moving {
            Activity::Active
        } else {
            Activity::Inactive
        }
    }

    /// Whether this is `Active`.
    pub fn is_active(self) -> (moving: bool)
        ensures
            moving == (self == Activity::Active),
            Activity::of(moving) == self,
    {
        match self {
            Activity::Active => true,
            Activity::Inactive => false,
        }
    }

    /// The line that announces this classification to the operator.
    pub fn label(self) -> (line: &'static str)
        ensures
            line@ == self.label_text(),
    {
        match self {
            Activity::Active => "ACTIVE",
            Activity::Inactive => "INACTIVE",
        }
    }

    /// The height at which this classification is drawn in a chart: one
    /// above the axis for `Active`, one below for `Inactive`.
    pub fn level(self) -> (height: i8)
        ensures
            height == self.level_of(),
    {
        match self {
            Activity::Active => 1,
            Activity::Inactive => -1,
        }
    }
}

} // verus!
