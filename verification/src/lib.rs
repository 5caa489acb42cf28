//! Debounced pointer-activity classification.
//!
//! Motion pulses and clock ticks go in; a clean two-valued signal comes out,
//! one notification per change of state.
//!
//! - [`engine`] holds the state machine itself, a pure function of events
//!   and clock readings, and [`timeline`] what it does over whole sequences.
//! - [`handler`] wires the engine to a clock and to a consumer of its
//!   notifications, both given as callbacks.
//! - [`dispatch`] turns a notification into its effects, in order, and
//!   [`monitor`] is the engine, its clock and its dispatcher in one piece.
//! - [`input`] decides where pulses come from and which raw events count.
//! - [`config`] derives the engine's time constants from what the operator
//!   configured, and [`chart`] keeps the samples of the live chart.
//!
//! Nothing here reads a device, a clock or a terminal: callers do, and hand
//! over plain values.

pub mod activity;
pub mod chart;
pub mod config;
pub mod dispatch;
pub mod engine;
pub mod handler;
pub mod input;
pub mod monitor;
pub mod timeline;
