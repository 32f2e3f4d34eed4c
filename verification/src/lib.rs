//! Drift-compensating periodic scheduling.
//!
//! A schedule runs a unit of work again and again, either at a fixed interval or
//! at the instants of a cron expression. The time the work takes is measured and
//! taken off the next wait, so that the starts of successive runs keep to the
//! nominal cadence.
//!
//! This crate holds the decisions of such a schedule as state machines
//! ([`IntervalSchedule`], [`CronSchedule`]): the caller hands in what happened
//! (a [`Signal`]) and is told what to do next (an [`Action`]). Sleeping, racing
//! the sleep against cancellation and awaiting the work are the caller's part.

pub mod crontab;
pub mod drifter;
pub mod engine;
pub mod error;
pub mod instant;
pub mod interval;
pub mod span;
pub mod token;

pub use crontab::CronSchedule;
pub use drifter::FuncDrifter;
pub use engine::{Action, Event, FailurePolicy, Phase, Signal, Step, StopReason};
pub use error::{job_result, DriftError, ExecutionError, ParseError};
pub use instant::Timestamp;
pub use interval::IntervalSchedule;
pub use span::Span;
