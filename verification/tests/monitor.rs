use std::cell::{Cell, RefCell};
use std::rc::Rc;

use on_mouse::activity::{Activity, MotionPulse};
use on_mouse::dispatch::{DispatchConfig, DispatchError, Effect};
use on_mouse::input::Wait;
use on_mouse::monitor::{Flow, Monitor};

fn name_of(effect: &Effect<&'static str>) -> String {
    match effect {
        Effect::Print(activity) => format!("print {}", activity.label()),
        Effect::Forward(activity) => format!("forward {}", activity.label()),
        Effect::Launch(program) => format!("launch {}", program),
    }
}

#[test]
fn monitor_performs_the_effects_of_each_change_once() {
    let log = Rc::new(RefCell::new(vec![]));
    let seen = log.clone();
    let now = Rc::new(Cell::new(0u128));
    let clock = now.clone();
    let config = DispatchConfig::new(Some("wake"), Some("sleep"), false, false);
    let mut monitor = Monitor::new(
        config,
        move |effect: &Effect<&'static str>| {
            seen.borrow_mut().push(name_of(effect));
            Ok(())
        },
        move || clock.get(),
        4,
    );

    assert_eq!(monitor.on_wait(Wait::TimedOut), Ok(Flow::Continue));
    assert!(log.borrow().is_empty());

    for tick in 1..=3u128 {
        now.set(tick);
        assert_eq!(monitor.on_wait(Wait::Pulse(MotionPulse)), Ok(Flow::Continue));
    }
    assert_eq!(*log.borrow(), vec!["print ACTIVE", "launch wake"]);

    for tick in 4..=6u128 {
        now.set(tick);
        assert_eq!(monitor.on_wait(Wait::TimedOut), Ok(Flow::Continue));
    }
    assert_eq!(*log.borrow(), vec!["print ACTIVE", "launch wake"]);

    now.set(7);
    assert_eq!(monitor.on_wait(Wait::TimedOut), Ok(Flow::Continue));
    assert_eq!(
        *log.borrow(),
        vec!["print ACTIVE", "launch wake", "print INACTIVE", "launch sleep"]
    );
    assert_eq!(monitor.engine().activity(), Activity::Inactive);

    now.set(1000);
    assert_eq!(monitor.on_wait(Wait::TimedOut), Ok(Flow::Continue));
    assert_eq!(log.borrow().len(), 4);
}

#[test]
fn monitor_stops_when_the_input_source_is_gone() {
    let reads = Rc::new(Cell::new(0u32));
    let counter = reads.clone();
    let config: DispatchConfig<&'static str> = DispatchConfig::new(None, None, false, false);
    let mut monitor = Monitor::new(
        config,
        |_effect: &Effect<&'static str>| Ok(()),
        move || {
            counter.set(counter.get() + 1);
            0u128
        },
        4,
    );
    assert_eq!(reads.get(), 1);
    assert_eq!(monitor.on_wait(Wait::Disconnected), Ok(Flow::Stop));
    assert_eq!(reads.get(), 1);
    assert_eq!(monitor.engine().activity(), Activity::Inactive);
}

#[test]
fn monitor_hands_back_a_failed_launch_and_has_stepped() {
    let config = DispatchConfig::new(Some("wake"), None, true, false);
    let mut monitor = Monitor::new(
        config,
        |effect: &Effect<&'static str>| match effect {
            Effect::Launch(program) => Err(DispatchError::LaunchFailed {
                program: String::from(*program),
                cause: String::from("not found"),
            }),
            _ => Ok(()),
        },
        || 9u128,
        4,
    );
    assert_eq!(
        monitor.on_wait(Wait::Pulse(MotionPulse)),
        Err(DispatchError::LaunchFailed {
            program: String::from("wake"),
            cause: String::from("not found"),
        })
    );
    assert!(monitor.engine().last_is_active());
    assert_eq!(monitor.engine().last_move_time(), 9);
    assert_eq!(monitor.on_wait(Wait::Pulse(MotionPulse)), Ok(Flow::Continue));
}
