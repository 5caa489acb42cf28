//! The configuration that the core consumes, and what it derives from it.

use vstd::prelude::*;
use crate::dispatch::{DispatchConfig, Mode};
use crate::input::InputSource;

verus! {

/// The debounce gap that applies where none is configured, in milliseconds.
pub const DEFAULT_MIN_MOVEMENT_GAP_MS: u64 = 1000;

/// Clock ticks in a millisecond: the clock counts nanoseconds.
pub const TICKS_PER_MILLISECOND: u128 = 1_000_000;

/// The engine is looked at again after this fraction of the gap at the latest.
pub const POLLS_PER_GAP: u128 = 4;

/// The longest wait before the engine is looked at again when no motion
/// arrives: a quarter of the gap, rounded down. It is shorter than any gap
/// but zero, so that inactivity is declared at most one poll interval late.
pub fn poll_interval(min_movement_gap: u128) -> (interval: u128)
    ensures
        interval == min_movement_gap / POLLS_PER_GAP,
        interval <= min_movement_gap,
        min_movement_gap > 0 ==> interval < min_movement_gap,
{
    min_movement_gap / POLLS_PER_GAP
}

/// What the operator configured. `P` is whatever names a program.
pub struct Config<P> {
    /// The program to start when the pointer becomes active.
    pub on_active_path: Option<P>,
    /// The program to start when the pointer becomes inactive.
    pub on_inactive_path: Option<P>,
    /// Announce nothing.
    pub quiet: bool,
    /// Feed the chart instead of printing.
    pub chart_enabled: bool,
    /// The debounce gap, in milliseconds.
    pub min_movement_gap_ms: u64,
    /// The device to grab, where one is to be grabbed.
    pub grab_device_name: Option<String>,
}

impl<P> Config<P> {
    /// The debounce gap in clock ticks.
    pub open spec fn gap_ticks(self) -> nat {
        (self.min_movement_gap_ms * TICKS_PER_MILLISECOND) as nat
    }

    /// A configuration from the operator's choices; the gap is one second
    /// where none is given.
    pub fn new(
        on_active_path: Option<P>,
        on_inactive_path: Option<P>,
        quiet: bool,
        chart_enabled: bool,
        min_movement_gap_ms: Option<u64>,
        grab_device_name: Option<String>,
    ) -> (config: Config<P>)
        ensures
            config == (Config {
                on_active_path,
                on_inactive_path,
                quiet,
                chart_enabled,
                min_movement_gap_ms: match min_movement_gap_ms {
                    Some(milliseconds) => milliseconds,
                    None => DEFAULT_MIN_MOVEMENT_GAP_MS,
                },
                grab_device_name,
            }),
    {
        Config {
            on_active_path,
            on_inactive_path,
            quiet,
            chart_enabled,
            min_movement_gap_ms: match min_movement_gap_ms {
                Some(milliseconds) => milliseconds,
                None => DEFAULT_MIN_MOVEMENT_GAP_MS,
            },
            grab_device_name,
        }
    }

    /// The debounce gap in clock ticks.
    pub fn min_movement_gap(&self) -> (gap: u128)
        ensures
            gap as nat == self.gap_ticks(),
    {
        (self.min_movement_gap_ms as u128) * TICKS_PER_MILLISECOND
    }

    /// The poll interval in clock ticks.
    pub fn poll_interval(&self) -> (interval: u128)
        ensures
            interval as nat == self.gap_ticks() / (POLLS_PER_GAP as nat),
            self.min_movement_gap_ms > 0 ==> interval < self.gap_ticks(),
    {
        poll_interval(self.min_movement_gap())
    }

    /// How transitions are announced.
    pub fn mode(&self) -> (mode: Mode)
        ensures
            mode == Mode::of(self.quiet, self.chart_enabled),
    {
        Mode::select(self.quiet, self.chart_enabled)
    }

    /// Splits the configuration into what the input source is and what the
    /// dispatcher gets. `grab_supported` says whether this platform can grab
    /// a device at all.
    pub fn into_parts(self, grab_supported: bool) -> (parts: (InputSource, DispatchConfig<P>))
        ensures
            parts.0 == InputSource::of(self.grab_device_name, grab_supported),
            parts.1 == (DispatchConfig {
                mode: Mode::of(self.quiet, self.chart_enabled),
                on_active: self.on_active_path,
                on_inactive: self.on_inactive_path,
            }),
    {
        let source = InputSource::select(self.grab_device_name, grab_supported);
        let dispatch = DispatchConfig::new(
            self.on_active_path,
            self.on_inactive_path,
            self.quiet,
            self.chart_enabled,
        );
        (source, dispatch)
    }
}

} // verus!
