//! The input source: where motion pulses come from.
//!
//! Reading devices is left to the caller. What is decided here: which
//! variant of the source a configuration selects, which device an exclusive
//! grab takes, which raw events count as motion, and what a wait on the
//! pulse channel means to the engine.

use vstd::prelude::*;
use vstd::string::StringExecFns;
use crate::activity::{Event, MotionPulse};

verus! {

/// A failure that ends the run.
#[derive(Debug, PartialEq, Eq)]
pub enum FatalError {
    /// No input device carries the requested name.
    DeviceNotFound { name: String },
    /// The device is there, but exclusive ownership of it was refused.
    PermissionDenied { name: String, cause: String },
    /// An exclusive grab was asked for where none can be made.
    UnsupportedPlatform { name: String },
    /// The system-wide listener could not run.
    ListenFailed { cause: String },
    /// Nobody will ever read the pulses again.
    SinkClosed,
}

impl FatalError {
    /// The text of this error for the operator.
    pub open spec fn message_text(self) -> Seq<char> {
        match self {
            FatalError::DeviceNotFound { name } => "No device named \""@ + name@
                + "\" found. Elevated priveldges are needed to access some devices. Consider running with `sudo`"@,
            FatalError::PermissionDenied { name, cause } => "Can't grab "@ + name@ + ": "@
                + cause@,
            FatalError::UnsupportedPlatform { name } => "Can't grab "@ + name@
                + " because grabbing devices is not yet supported on Windows"@,
            FatalError::ListenFailed { cause } => "Error: "@ + cause@,
            FatalError::SinkClosed => "sending on a closed channel"@,
        }
    }

    /// The text of this error for the operator.
    pub fn message(&self) -> (text: String)
        ensures
            text@ == self.message_text(),
    {
        match self {
            FatalError::DeviceNotFound { name } => {
                let mut text = String::from_str("No device named \"");
                text.append(name.as_str());
                text.append(
                    "\" found. Elevated priveldges are needed to access some devices. Consider running with `sudo`",
                );
                text
            },
            FatalError::PermissionDenied { name, cause } => {
                let mut text = String::from_str("Can't grab ");
                text.append(name.as_str());
                text.append(": ");
                text.append(cause.as_str());
                text
            },
            FatalError::UnsupportedPlatform { name } => {
                let mut text = String::from_str("Can't grab ");
                text.append(name.as_str());
                text.append(" because grabbing devices is not yet supported on Windows");
                text
            },
            FatalError::ListenFailed { cause } => {
                let mut text = String::from_str("Error: ");
                text.append(cause.as_str());
                text
            },
            FatalError::SinkClosed => String::from_str("sending on a closed channel"),
        }
    }
}

/// The variant of the input source that a run uses. Exactly one is active.
#[derive(Debug, PartialEq, Eq)]
pub enum InputSource {
    /// Listen to every pointer device, without taking any of them away
    /// from other programs.
    Global,
    /// Take the device of this name for this process alone.
    ExclusiveGrab(String),
    /// An exclusive grab of the device of this name was asked for, and the
    /// platform offers none.
    Unsupported(String),
}

impl InputSource {
    /// The variant that a configuration selects: the global listener where
    /// no device is named; else the grab of that device, or, where the
    /// platform has no grab, the variant that fails.
    pub open spec fn of(grab_device_name: Option<String>, grab_supported: bool) -> InputSource {
        match grab_device_name {
            None => InputSource::Global,
            Some(name) => if grab_supported {
                InputSource::ExclusiveGrab(name)
            } else {
                InputSource::Unsupported(name)
            },
        }
    }

    /// The variant that a configuration selects.
    pub fn select(grab_device_name: Option<String>, grab_supported: bool) -> (source: InputSource)
        ensures
            source == InputSource::of(grab_device_name, grab_supported),
    {
        match grab_device_name {
            None => InputSource::Global,
            Some(name) => if grab_supported {
                InputSource::ExclusiveGrab(name)
            } else {
                InputSource::Unsupported(name)
            },
        }
    }

    /// The name of the device that this source has to grab before it can
    /// run: none for the global listener. The unsupported variant fails here,
    /// at once, and never falls back to listening globally.
    pub fn device_to_grab(&self) -> (wanted: Result<Option<&String>, FatalError>)
        ensures
            match *self {
                InputSource::Global => wanted == Ok::<Option<&String>, FatalError>(None),
                InputSource::ExclusiveGrab(name) => wanted == Ok::<Option<&String>, FatalError>(
                    Some(&name),
                ),
                InputSource::Unsupported(name) => wanted matches Err(
                    FatalError::UnsupportedPlatform { name: refused },
                ) && refused@ == name@,
            },
    {
        match self {
            InputSource::Global => Ok(None),
            InputSource::ExclusiveGrab(name) => Ok(Some(name)),
            InputSource::Unsupported(name) => Err(
                FatalError::UnsupportedPlatform { name: name.clone() },
            ),
        }
    }
}

/// Whether an enumerated device, which may have no name, carries exactly
/// the name `target`.
pub open spec fn is_named(device_name: Option<String>, target: Seq<char>) -> bool {
    device_name matches Some(name) && name@ == target
}

/// Picks the device to grab from the names of the enumerated devices, in
/// the order of enumeration: the first one that carries exactly the name
/// `target`. Fails with `DeviceNotFound` exactly where none does.
pub fn find_device(
    device_names: &Vec<Option<String>>,
    target: &String,
) -> (found: Result<usize, FatalError>)
    ensures
        match found {
            Ok(index) => {
                &&& index < device_names.len()
                &&& is_named(device_names[index as int], target@)
                &&& forall|j: int| 0 <= j < index ==> !is_named(#[trigger] device_names[j], target@)
            },
            Err(error) => {
                &&& error matches FatalError::DeviceNotFound { name }
                &&& name@ == target@
                &&& forall|j: int|
                    0 <= j < device_names.len() ==> !is_named(#[trigger] device_names[j], target@)
            },
        },
{
    let mut i: usize = 0;
    while i < device_names.len()
        invariant
            i <= device_names.len(),
            forall|j: int| 0 <= j < i ==> !is_named(#[trigger] device_names[j], target@),
        decreases device_names.len() - i,
    {
        match &device_names[i] {
            Some(name) => {
                if *name == *target {
                    return Ok(i);
                }
            },
            None => {},
        }
        i = i + 1;
    }
    Err(FatalError::DeviceNotFound { name: target.clone() })
}

/// The kinds of event that the system-wide listener reports.
#[derive(Copy, Clone, Debug, PartialEq, Eq, Structural)]
pub enum ListenerEvent {
    KeyPress,
    KeyRelease,
    ButtonPress,
    ButtonRelease,
    MouseMove,
    Wheel,
}

impl ListenerEvent {
    /// Whether this event is a motion pulse: only a move of the pointer is.
    pub fn is_pulse(self) -> (pulse: bool)
        ensures
            pulse == (self == ListenerEvent::MouseMove),
    {
        match self {
            ListenerEvent::MouseMove => true,
            _ => false,
        }
    }
}

/// The event type of relative motion on an input device.
pub const RELATIVE: u16 = 0x02;

/// The code of the vertical axis among relative axes.
pub const REL_Y: u16 = 0x01;

/// A raw event from a grabbed device: its type and its code.
#[derive(Copy, Clone, Debug, PartialEq, Eq, Structural)]
pub struct DeviceEvent {
    pub kind: u16,
    pub code: u16,
}

impl DeviceEvent {
    /// Whether this event is a motion pulse: only relative motion along
    /// the vertical axis is.
    pub fn is_pulse(self) -> (pulse: bool)
        ensures
            pulse == (self.kind == RELATIVE && self.code == REL_Y),
    {
        self.kind == RELATIVE && self.code == REL_Y
    }
}

/// What a wait on the pulse channel, bounded by the poll interval, came to.
#[derive(Copy, Clone, Debug, PartialEq, Eq, Structural)]
pub enum Wait {
    /// A pulse arrived in time.
    Pulse(MotionPulse),
    /// The poll interval went by without one.
    TimedOut,
    /// The input source is gone, and no pulse will come.
    Disconnected,
}

impl Wait {
    /// The event that this outcome is to the engine; none where the input
    /// source is gone, which ends the run.
    pub open spec fn event_of(self) -> Option<Event> {
        match self {
            Wait::Pulse(_) => Some(Event::Mousemove),
            Wait::TimedOut => Some(Event::TimePassed),
            Wait::Disconnected => None,
        }
    }

    /// The event that this outcome is to the engine; none where the input
    /// source is gone, which ends the run.
    pub fn event(self) -> (event: Option<Event>)
        ensures
            event == self.event_of(),
    {
        match self {
            Wait::Pulse(_) => Some(Event::Mousemove),
            Wait::TimedOut => Some(Event::TimePassed),
            Wait::Disconnected => None,
        }
    }
}

} // verus!
