//! The vocabulary that the two kinds of schedule share: what the caller reports,
//! what it is told to do, and what a collaborator may record.

use crate::error::ExecutionError;
use crate::instant::Timestamp;
use crate::span::Span;
use tokio_util::sync::CancellationToken;
use vstd::prelude::*;

verus! {

/// What becomes of a schedule when an execution fails.
#[derive(Debug, Clone, Copy, PartialEq, Eq, Structural)]
pub enum FailurePolicy {
    /// The failure is recorded and the schedule goes on as after a success.
    ContinueOnError,
    /// The schedule cancels its token and stops.
    CancelOnError,
}

impl Default for FailurePolicy {
    /// A schedule goes on after a failure unless it is told otherwise.
    fn default() -> (r: FailurePolicy)
        ensures
            r == FailurePolicy::ContinueOnError,
    {
        FailurePolicy::ContinueOnError
    }
}

/// Where a schedule stands.
#[derive(Debug, Clone, Copy, PartialEq, Eq, Structural)]
pub enum Phase {
    /// No tick is armed.
    Idle,
    /// A tick is armed: the caller sleeps until it is due, or until
    /// cancellation.
    Waiting,
    /// The work is running. `cancel_requested` records a cancellation that
    /// came in meanwhile: the run is left to finish, and no tick follows it.
    Running { cancel_requested: bool },
    /// The schedule has ended, for good.
    Stopped,
}

impl Phase {
    /// Whether a schedule in this phase has taken a cancellation in: it has
    /// stopped, or its work is running with the cancellation on record.
    pub open spec fn cancellation_taken(self) -> bool {
        self == Phase::Stopped || self == (Phase::Running { cancel_requested: true })
    }
}

/// Why a schedule stopped.
#[derive(Debug, Clone, Copy, PartialEq, Eq, Structural)]
pub enum StopReason {
    /// Cancellation was observed.
    Cancelled,
    /// An execution failed under `FailurePolicy::CancelOnError`.
    FatalError,
    /// The cron expression has no further instant.
    Exhausted,
}

/// What a schedule lets a collaborator record.
#[derive(Debug, Clone, PartialEq, Eq)]
pub enum Event {
    /// The work is about to run.
    TickStart,
    /// The work returned success after `elapsed_ms` whole milliseconds.
    TickSuccess { elapsed_ms: u128 },
    /// The work returned `error`.
    TickFailure { error: ExecutionError },
    /// The cron instant `instant` had passed when it came up, and was left out.
    TickSkipped { instant: Timestamp },
    /// The schedule ended.
    Stopped { reason: StopReason },
}

/// What the caller reports to a schedule.
#[derive(Debug, PartialEq, Eq)]
pub enum Signal {
    /// Arm the next tick.
    Arm,
    /// The cancellation token was found cancelled.
    Cancelled,
    /// The sleep that was asked for is over.
    Elapsed,
    /// The work has returned `outcome` after running for `elapsed`.
    Finished { elapsed: Span, outcome: Result<(), ExecutionError> },
}

/// A `Signal` as the model of a schedule reads it.
pub enum Input {
    Arm,
    Cancelled,
    Elapsed,
    /// The work ran for `elapsed` nanoseconds and failed, or did not.
    Finished { elapsed: nat, failed: bool },
}

impl View for Signal {
    type V = Input;

    open spec fn view(&self) -> Input {
        match self {
            Signal::Arm => Input::Arm,
            Signal::Cancelled => Input::Cancelled,
            Signal::Elapsed => Input::Elapsed,
            Signal::Finished { elapsed, outcome } => Input::Finished {
                elapsed: elapsed@,
                failed: outcome.is_err(),
            },
        }
    }
}

/// What a schedule tells the caller to do next.
#[derive(Debug)]
pub enum Action {
    /// Sleep for `wait`, or until the token is cancelled, and report which.
    Sleep { wait: Span },
    /// Run the work with `token`, a child of the schedule's token made for
    /// this run, and report how long it took and what it returned.
    Execute { token: CancellationToken },
    /// The cron instant `instant` is not run. Arm the next one.
    Skip { instant: Timestamp },
    /// The schedule has ended.
    Stop { reason: StopReason },
    /// The signal did not apply where the schedule stands. Nothing changed.
    Ignore,
}

/// An `Action` as the model of a schedule gives it: times in nanoseconds, and
/// no token.
pub enum Directive {
    Sleep { wait: nat },
    Execute,
    Skip { instant: int },
    Stop { reason: StopReason },
    Ignore,
}

impl View for Action {
    type V = Directive;

    open spec fn view(&self) -> Directive {
        match self {
            Action::Sleep { wait } => Directive::Sleep { wait: wait@ },
            Action::Execute { token } => Directive::Execute,
            Action::Skip { instant } => Directive::Skip { instant: instant@ },
            Action::Stop { reason } => Directive::Stop { reason: *reason },
            Action::Ignore => Directive::Ignore,
        }
    }
}

/// The answer of a schedule to one signal.
#[derive(Debug)]
pub struct Step {
    /// What to do next.
    pub action: Action,
    /// What happened, in order.
    pub events: Vec<Event>,
}

/// The event that records how a run ended.
pub open spec fn run_event(elapsed: Span, outcome: Result<(), ExecutionError>) -> Event {
    match outcome {
        Ok(_) => Event::TickSuccess { elapsed_ms: (elapsed@ / 1_000_000) as u128 },
        Err(error) => Event::TickFailure { error },
    }
}

/// Whether a run that failed, or did not, ends the schedule, and why: a
/// failure under `CancelOnError` does, and so does a cancellation that came
/// in during the run.
pub open spec fn stop_after_run(
    policy: FailurePolicy,
    cancel_requested: bool,
    failed: bool,
) -> Option<StopReason> {
    if failed && policy == FailurePolicy::CancelOnError {
        Some(StopReason::FatalError)
    } else if cancel_requested {
        Some(StopReason::Cancelled)
    } else {
        None
    }
}

/// Decides whether the schedule ends after a run.
pub fn decide_after_run(policy: FailurePolicy, cancel_requested: bool, failed: bool) -> (r: Option<
    StopReason,
>)
    ensures
        r == stop_after_run(policy, cancel_requested, failed),
{
    if failed && policy == FailurePolicy::CancelOnError {
        Some(StopReason::FatalError)
    } else if cancel_requested {
        Some(StopReason::Cancelled)
    } else {
        None
    }
}

/// Records how a run ended.
pub fn report_run(elapsed: Span, outcome: Result<(), ExecutionError>) -> (r: Event)
    ensures
        r == run_event(elapsed, outcome),
{
    match outcome {
        Ok(_) => Event::TickSuccess { elapsed_ms: elapsed.as_millis() },
        Err(error) => Event::TickFailure { error },
    }
}

} // verus!
