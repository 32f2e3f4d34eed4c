//! The schedule that runs its work at a fixed interval.
//!
//! After each run the schedule waits for what is left of the interval once the
//! time of the run is taken off, so that runs start one interval apart however
//! long each takes. A run that takes the whole interval or more is followed at
//! once by the next, and by one only: nothing is kept of how late the
//! schedule is.

use crate::engine::{
    decide_after_run, report_run, run_event, stop_after_run, Action, Directive, Event,
    FailurePolicy, Input, Phase, Signal, Step, StopReason,
};
use crate::span::Span;
use tokio_util::sync::CancellationToken;
use vstd::prelude::*;

verus! {

/// The wait that follows a run of `elapsed` nanoseconds in a schedule of
/// `interval` nanoseconds: what is left of the interval, and nothing where
/// the run took all of it.
pub open spec fn next_wait(interval: nat, elapsed: nat) -> nat {
    if elapsed < interval {
        (interval - elapsed) as nat
    } else {
        0
    }
}

/// The time from the start of one run to the start of the next, where the
/// first takes `elapsed` nanoseconds and the sleep between them ends
/// `overhead` nanoseconds after the wait that was asked for.
pub open spec fn start_gap(interval: nat, elapsed: nat, overhead: nat) -> nat {
    elapsed + next_wait(interval, elapsed) + overhead
}

/// An interval schedule as its rules see it: times in nanoseconds.
pub struct IntervalModel {
    /// The nominal time between the starts of two runs.
    pub interval: nat,
    /// What a failed run leads to.
    pub policy: FailurePolicy,
    /// The wait before the next run.
    pub wait: nat,
    /// Where the schedule stands.
    pub phase: Phase,
}

/// The rules of the interval schedule: the state after `input`, and what the
/// caller is to do.
pub open spec fn interval_step(m: IntervalModel, input: Input) -> (IntervalModel, Directive) {
    match m.phase {
        Phase::Idle => match input {
            Input::Arm => (
                IntervalModel { phase: Phase::Waiting, ..m },
                Directive::Sleep { wait: m.wait },
            ),
            Input::Cancelled => (
                IntervalModel { phase: Phase::Stopped, ..m },
                Directive::Stop { reason: StopReason::Cancelled },
            ),
            _ => (m, Directive::Ignore),
        },
        Phase::Waiting => match input {
            Input::Cancelled => (
                IntervalModel { phase: Phase::Stopped, ..m },
                Directive::Stop { reason: StopReason::Cancelled },
            ),
            Input::Elapsed => (
                IntervalModel { phase: Phase::Running { cancel_requested: false }, ..m },
                Directive::Execute,
            ),
            _ => (m, Directive::Ignore),
        },
        Phase::Running { cancel_requested } => match input {
            Input::Cancelled => (
                IntervalModel { phase: Phase::Running { cancel_requested: true }, ..m },
                Directive::Ignore,
            ),
            Input::Finished { elapsed, failed } => {
                let wait = next_wait(m.interval, elapsed);
                match stop_after_run(m.policy, cancel_requested, failed) {
                    Some(reason) => (
                        IntervalModel { phase: Phase::Stopped, wait, ..m },
                        Directive::Stop { reason },
                    ),
                    None => (
                        IntervalModel { phase: Phase::Waiting, wait, ..m },
                        Directive::Sleep { wait },
                    ),
                }
            },
            _ => (m, Directive::Ignore),
        },
        Phase::Stopped => (m, Directive::Ignore),
    }
}

/// What the interval schedule records on `signal`.
pub open spec fn interval_events(m: IntervalModel, signal: Signal) -> Seq<Event> {
    match m.phase {
        Phase::Idle => match signal {
            Signal::Cancelled => seq![Event::Stopped { reason: StopReason::Cancelled }],
            _ => Seq::empty(),
        },
        Phase::Waiting => match signal {
            Signal::Cancelled => seq![Event::Stopped { reason: StopReason::Cancelled }],
            Signal::Elapsed => seq![Event::TickStart],
            _ => Seq::empty(),
        },
        Phase::Running { cancel_requested } => match signal {
            Signal::Finished { elapsed, outcome } => match stop_after_run(
                m.policy,
                cancel_requested,
                outcome.is_err(),
            ) {
                Some(reason) => seq![run_event(elapsed, outcome), Event::Stopped { reason }],
                None => seq![run_event(elapsed, outcome)],
            },
            _ => Seq::empty(),
        },
        Phase::Stopped => Seq::empty(),
    }
}

/// A schedule that runs its work every `interval`, measured from start to
/// start.
pub struct IntervalSchedule {
    interval: Span,
    policy: FailurePolicy,
    wait: Span,
    phase: Phase,
    root: CancellationToken,
}

impl View for IntervalSchedule {
    type V = IntervalModel;

    closed spec fn view(&self) -> IntervalModel {
        IntervalModel {
            interval: self.interval@,
            policy: self.policy,
            wait: self.wait@,
            phase: self.phase,
        }
    }
}

impl IntervalSchedule {
    /// A schedule of `interval` whose first run is due at once.
    pub fn new(interval: Span, policy: FailurePolicy) -> (r: IntervalSchedule)
        ensures
            r@ == (IntervalModel { interval: interval@, policy, wait: 0, phase: Phase::Idle }),
    {
        IntervalSchedule {
            interval,
            policy,
            wait: Span::zero(),
            phase: Phase::Idle,
            root: CancellationToken::new(),
        }
    }

    /// A schedule of `interval` whose first run is due after `delay`.
    pub fn with_initial_delay(interval: Span, policy: FailurePolicy, delay: Span) -> (r:
        IntervalSchedule)
        ensures
            r@ == (IntervalModel { interval: interval@, policy, wait: delay@, phase: Phase::Idle }),
    {
        IntervalSchedule {
            interval,
            policy,
            wait: delay,
            phase: Phase::Idle,
            root: CancellationToken::new(),
        }
    }

    /// The token of the schedule: the one that was made with it. The schedule
    /// keeps it for good.
    pub closed spec fn own_token(&self) -> CancellationToken {
        self.root
    }

    /// A handle to the token of the schedule: the caller cancels it to stop
    /// the schedule, and finds it cancelled once the schedule gave up.
    pub fn token(&self) -> (r: CancellationToken)
        ensures
            r == self.own_token(),
    {
        self.root.clone()
    }

    /// The nominal time between the starts of two runs.
    pub fn interval(&self) -> (r: Span)
        ensures
            r@ == self@.interval,
    {
        self.interval
    }

    /// What a failed run leads to.
    pub fn policy(&self) -> (r: FailurePolicy)
        ensures
            r == self@.policy,
    {
        self.policy
    }

    /// The wait before the next run.
    pub fn wait(&self) -> (r: Span)
        ensures
            r@ == self@.wait,
    {
        self.wait
    }

    /// Where the schedule stands.
    pub fn phase(&self) -> (r: Phase)
        ensures
            r == self@.phase,
    {
        self.phase
    }

    /// Takes `signal`, moves the schedule on as `interval_step` says, and
    /// tells the caller what to do next. Where a failed run ends the
    /// schedule, its token is cancelled.
    pub fn step(&mut self, signal: Signal) -> (r: Step)
        ensures
            final(self)@ == interval_step(old(self)@, signal@).0,
            r.action@ == interval_step(old(self)@, signal@).1,
            r.events@ == interval_events(old(self)@, signal),
            final(self).own_token() == old(self).own_token(),
    {
        let mut events: Vec<Event> = Vec::new();
        let action = match self.phase {
            Phase::Idle => match signal {
                Signal::Arm => {
                    self.phase = Phase::Waiting;
                    Action::Sleep { wait: self.wait }
                },
                Signal::Cancelled => {
                    self.phase = Phase::Stopped;
                    events.push(Event::Stopped { reason: StopReason::Cancelled });
                    Action::Stop { reason: StopReason::Cancelled }
                },
                _ => Action::Ignore,
            },
            Phase::Waiting => match signal {
                Signal::Cancelled => {
                    self.phase = Phase::Stopped;
                    events.push(Event::Stopped { reason: StopReason::Cancelled });
                    Action::Stop { reason: StopReason::Cancelled }
                },
                Signal::Elapsed => {
                    self.phase = Phase::Running { cancel_requested: false };
                    events.push(Event::TickStart);
                    Action::Execute { token: self.root.child_token() }
                },
                _ => Action::Ignore,
            },
            Phase::Running { cancel_requested } => match signal {
                Signal::Cancelled => {
                    self.phase = Phase::Running { cancel_requested: true };
                    Action::Ignore
                },
                Signal::Finished { elapsed, outcome } => {
                    let failed = outcome.is_err();
                    self.wait = self.interval.saturating_sub(elapsed);
                    events.push(report_run(elapsed, outcome));
                    match decide_after_run(self.policy, cancel_requested, failed) {
                        Some(reason) => {
                            if let StopReason::FatalError = reason {
                                self.root.cancel();
                            }
                            self.phase = Phase::Stopped;
                            events.push(Event::Stopped { reason });
                            Action::Stop { reason }
                        },
                        None => {
                            self.phase = Phase::Waiting;
                            Action::Sleep { wait: self.wait }
                        },
                    }
                },
                _ => Action::Ignore,
            },
            Phase::Stopped => Action::Ignore,
        };
        Step { action, events }
    }
}

/// A run shorter than the interval is followed by a wait of exactly what is
/// left of the interval, whether the run failed or not; where the schedule
/// goes on, that wait is what the caller is told to sleep.
pub proof fn law_short_run_waits_for_the_rest(m: IntervalModel, elapsed: nat, failed: bool)
    requires
        m.phase is Running,
        elapsed < m.interval,
    ensures
        interval_step(m, Input::Finished { elapsed, failed }).0.wait == m.interval - elapsed,
        interval_step(m, Input::Finished { elapsed, failed }).0.phase == Phase::Waiting
            ==> interval_step(m, Input::Finished { elapsed, failed }).1 == (Directive::Sleep {
            wait: (m.interval - elapsed) as nat,
        }),
{
}

/// A run that takes the interval or longer is followed by a wait of zero.
/// However long it took, the schedule is left in the same state: what was
/// missed is not made up for, and one run follows, not several.
pub proof fn law_long_run_fires_once_at_once(
    m: IntervalModel,
    elapsed: nat,
    longer: nat,
    failed: bool,
)
    requires
        m.phase is Running,
        elapsed >= m.interval,
        longer >= elapsed,
    ensures
        interval_step(m, Input::Finished { elapsed, failed }).0.wait == 0,
        interval_step(m, Input::Finished { elapsed, failed }).0.phase == Phase::Waiting
            ==> interval_step(m, Input::Finished { elapsed, failed }).1 == (Directive::Sleep {
            wait: 0,
        }),
        interval_step(m, Input::Finished { elapsed: longer, failed }) == interval_step(
            m,
            Input::Finished { elapsed, failed },
        ),
{
}

/// No run starts early: two successive starts are at least one interval
/// apart. While runs are no longer than the interval, they are apart by the
/// interval and the overhead of the sleep alone, so that the time of the run
/// does not add up from tick to tick.
pub proof fn law_starts_keep_the_interval(interval: nat, elapsed: nat, overhead: nat)
    ensures
        start_gap(interval, elapsed, overhead) >= interval,
        elapsed <= interval ==> start_gap(interval, elapsed, overhead) == interval + overhead,
        elapsed > interval ==> start_gap(interval, elapsed, overhead) == elapsed + overhead,
{
}

/// The drift bound. Take a run of `elapsed` nanoseconds, the wait that the
/// schedule computes after it, and a sleep that ends `overhead` nanoseconds
/// after that wait: the next start then comes `start_gap` after this one, and
/// that differs from the interval by less than the time of the run and the
/// overhead together. This holds for a run that takes some time in a
/// schedule whose interval is not zero.
pub proof fn law_drift_is_bounded(m: IntervalModel, elapsed: nat, failed: bool, overhead: nat)
    requires
        m.phase is Running,
        m.interval > 0,
        elapsed > 0,
    ensures
        start_gap(m.interval, elapsed, overhead) == elapsed + interval_step(
            m,
            Input::Finished { elapsed, failed },
        ).0.wait + overhead,
        0 <= start_gap(m.interval, elapsed, overhead) - m.interval < elapsed + overhead,
{
}

/// A cancellation that is reported before the sleep is over ends the
/// schedule there: the run that the sleep led up to is never asked for.
pub proof fn law_cancel_before_wake_prevents_the_run(m: IntervalModel)
    requires
        m.phase == Phase::Waiting || m.phase == Phase::Idle,
    ensures
        interval_step(m, Input::Cancelled).0.phase == Phase::Stopped,
        interval_step(m, Input::Cancelled).1 == (Directive::Stop {
            reason: StopReason::Cancelled,
        }),
{
}

/// A cancellation that is reported while the work runs does not end the run:
/// the schedule stays `Running`. When the run has finished, whatever it took
/// and returned, the schedule stops and asks for no further run.
pub proof fn law_cancel_during_run_lets_it_finish(m: IntervalModel, elapsed: nat, failed: bool)
    requires
        m.phase is Running,
    ensures
        interval_step(m, Input::Cancelled).0.phase == (Phase::Running { cancel_requested: true }),
        interval_step(m, Input::Cancelled).1 == Directive::Ignore,
        interval_step(
            interval_step(m, Input::Cancelled).0,
            Input::Finished { elapsed, failed },
        ).0.phase == Phase::Stopped,
        interval_step(
            interval_step(m, Input::Cancelled).0,
            Input::Finished { elapsed, failed },
        ).1 is Stop,
{
}

/// Cancellation is final. Whatever is reported, a schedule that has taken a
/// cancellation in never asks for a run again and never forgets the
/// cancellation; and a report of cancellation is taken in wherever the
/// schedule stands.
pub proof fn law_cancellation_is_final(m: IntervalModel, input: Input)
    ensures
        interval_step(m, Input::Cancelled).0.phase.cancellation_taken(),
        m.phase.cancellation_taken() ==> interval_step(m, input).0.phase.cancellation_taken(),
        m.phase.cancellation_taken() ==> !(interval_step(m, input).1 is Execute),
        m.phase == Phase::Stopped ==> interval_step(m, input) == (m, Directive::Ignore),
{
}

/// Under `CancelOnError` a failed run ends the schedule; under
/// `ContinueOnError` a failed run is followed by the same wait as a
/// successful one.
pub proof fn law_failure_follows_the_policy(m: IntervalModel, elapsed: nat)
    requires
        m.phase == (Phase::Running { cancel_requested: false }),
    ensures
        m.policy == FailurePolicy::CancelOnError ==> interval_step(
            m,
            Input::Finished { elapsed, failed: true },
        ).1 == (Directive::Stop { reason: StopReason::FatalError }),
        m.policy == FailurePolicy::ContinueOnError ==> interval_step(
            m,
            Input::Finished { elapsed, failed: true },
        ) == interval_step(m, Input::Finished { elapsed, failed: false }),
        interval_step(m, Input::Finished { elapsed, failed: false }).1 == (Directive::Sleep {
            wait: next_wait(m.interval, elapsed),
        }),
{
}

/// A run is asked for only when the sleep of an armed tick is over, never
/// while another run is under way: runs of one schedule do not overlap.
pub proof fn law_one_run_at_a_time(m: IntervalModel, input: Input)
    ensures
        interval_step(m, input).1 is Execute ==> m.phase == Phase::Waiting && input is Elapsed,
        interval_step(m, input).1 is Execute ==> interval_step(m, input).0.phase is Running,
{
}

} // verus!
