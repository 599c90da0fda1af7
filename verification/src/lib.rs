//! Typed construction of scheduled-task definitions.
//!
//! A [`schedule_builder::ScheduleBuilder`] assembles a
//! [`schedule::Schedule`] piece by piece: one trigger, any number of actions,
//! registration information, settings and a principal. Calendar sets and
//! durations are stored in the compact forms a task store expects.

/// Errors used throughout the crate.
pub mod error;
/// Durations and their textual form.
pub mod duration;
/// Calendar values as bits of a flag word.
pub mod bitmask;
/// Enums used throughout the crate.
pub mod enums;
/// Various settings available while building [Schedules](schedule::Schedule).
pub mod settings;
/// Schedules and what they hold.
pub mod schedule;
/// Build different [Schedules](schedule::Schedule) for a task store.
pub mod schedule_builder;
/// The one initialization of the outside subsystem, and the handles to it.
pub mod com;
/// Naming tasks in a task store.
pub mod task_scheduler;
