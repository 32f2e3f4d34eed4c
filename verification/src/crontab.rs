//! The schedule that runs its work at the instants of a cron expression.
//!
//! The expression has six fields (seconds, minutes, hours, day of month,
//! month, day of week) and is read against UTC by the `cron` crate. The
//! schedule walks the instants of the expression in order. One that has
//! passed by the time it comes up is left out, so that a late schedule, or a
//! run that outlasts the next instant, is never followed by a burst of runs.

use crate::engine::{
    decide_after_run, report_run, run_event, stop_after_run, Action, Directive, Event,
    FailurePolicy, Input, Phase, Signal, Step, StopReason,
};
use crate::error::ParseError;
use crate::instant::Timestamp;
use crate::span::{Span, NANOS_PER_SEC};
use std::str::FromStr;
use tokio_util::sync::CancellationToken;
use vstd::prelude::*;

verus! {

/// `cron::Schedule`, a cron expression as the `cron` crate has read it.
/// Nothing is seen of what is inside.
#[verifier::external_type_specification]
#[verifier::external_body]
pub struct ExSchedule(::cron::Schedule);

/// `cron::error::Error`, what the `cron` crate returns for an expression it
/// cannot read. Nothing is seen of what is inside.
#[verifier::external_type_specification]
#[verifier::external_body]
pub struct ExCronError(::cron::error::Error);

/// The last second from which a following instant is asked of the
/// expression: 9999-12-31T23:59:59Z. Cron expressions reach no later than
/// the year 2100.
pub const LAST_SECOND: i64 = 253_402_300_799;

/// Whether the `cron` crate reads `expr` as a schedule.
pub uninterp spec fn cron_accepts(expr: Seq<char>) -> bool;

/// The second of the first instant of `expr` that lies after the instant
/// `nanos` nanoseconds past second `secs`, as the `cron` crate finds it
/// against UTC; `None` where the expression has none.
pub uninterp spec fn cron_next_after(expr: Seq<char>, secs: int, nanos: int) -> Option<int>;

/// `cron::Schedule::from_str`: reads `expr` as a schedule. The contract names
/// the expressions that are read; of the schedule and of the error it says
/// nothing.
#[verifier::external_body]
fn parse_expression(expr: &str) -> (r: Result<::cron::Schedule, ::cron::error::Error>)
    ensures
        r.is_ok() == cron_accepts(expr@),
{
    ::cron::Schedule::from_str(expr)
}

/// `Display` of `cron::error::Error`: what the parser said. Nothing is
/// claimed of the text.
#[verifier::external_body]
fn error_text(error: &::cron::error::Error) -> (text: String) {
    format!("{}", error)
}

/// `cron::Schedule::after` and the first `next` of the iterator it gives:
/// the first instant of the schedule after a given one, in UTC. The schedule
/// is the one that `expr` reads as, and the instant is handed over as a
/// `chrono::DateTime<Utc>`. The result is named, as a function of the
/// expression and the instant. The one fact stated of it is in the crate's
/// source: the search starts one second after the instant and builds its
/// candidates from whole seconds, so what is found lies in a later second.
/// The bounds on the instant keep chrono from failing on the conversion and
/// on that added second.
#[verifier::external_body]
fn next_fire_after(expr: &str, secs: i64, nanos: u32) -> (r: Option<i64>)
    requires
        cron_accepts(expr@),
        0 <= secs <= LAST_SECOND,
        nanos < NANOS_PER_SEC,
    ensures
        match r {
            Some(second) => cron_next_after(expr@, secs as int, nanos as int) == Some(
                second as int,
            ) && second > secs,
            None => cron_next_after(expr@, secs as int, nanos as int).is_none(),
        },
{
    let schedule = ::cron::Schedule::from_str(expr).ok()?;
    let after = chrono::DateTime::from_timestamp(secs, nanos)?;
    match schedule.after(&after).next() {
        Some(fire) => Some(fire.timestamp()),
        None => None,
    }
}

/// The first instant of `expr` after the instant `at` (in nanoseconds since
/// the origin); `None` where the expression has none, and for an `at` before
/// 1970 or after `LAST_SECOND`.
pub open spec fn next_fire(expr: Seq<char>, at: int) -> Option<Timestamp> {
    let secs = at / 1_000_000_000;
    let nanos = at % 1_000_000_000;
    if 0 <= secs <= LAST_SECOND {
        match cron_next_after(expr, secs, nanos) {
            Some(second) => Some(Timestamp::at_second(second)),
            None => None,
        }
    } else {
        None
    }
}

/// An instant, if there is one, in nanoseconds since the origin.
pub open spec fn instant_nanos(instant: Option<Timestamp>) -> Option<int> {
    match instant {
        Some(t) => Some(t@),
        None => None,
    }
}

/// A cron schedule as its rules see it: times in nanoseconds.
pub struct CronModel {
    /// The cron expression.
    pub expr: Seq<char>,
    /// What a failed run leads to.
    pub policy: FailurePolicy,
    /// The instant that came up last; `None` before the first.
    pub cursor: Option<int>,
    /// The wait before the next run.
    pub wait: nat,
    /// Where the schedule stands.
    pub phase: Phase,
}

/// The instant after which the next one is looked for: the one that came up
/// last, and `now` for a schedule that has not begun.
pub open spec fn cron_base(m: CronModel, now: int) -> int {
    match m.cursor {
        Some(cursor) => cursor,
        None => now,
    }
}

/// Whether `input` makes the schedule take up its next instant: a schedule
/// with no tick armed is told to arm one, or a run has finished and the
/// schedule goes on.
pub open spec fn cron_arms(m: CronModel, input: Input) -> bool {
    match m.phase {
        Phase::Idle => input is Arm,
        Phase::Running { cancel_requested } => input matches Input::Finished { failed, .. }
            && stop_after_run(m.policy, cancel_requested, failed).is_none(),
        _ => false,
    }
}

/// Takes up `upcoming`, the next instant of the expression, at the time
/// `now`. With no instant left the schedule ends. An instant that is not
/// after `now` is skipped: no run is asked for, and no tick is armed. For one
/// that is still ahead the schedule waits until it comes.
pub open spec fn cron_arm(m: CronModel, now: int, upcoming: Option<int>) -> (
    CronModel,
    Directive,
) {
    match upcoming {
        None => (
            CronModel { phase: Phase::Stopped, ..m },
            Directive::Stop { reason: StopReason::Exhausted },
        ),
        Some(fire) => if fire <= now {
            (
                CronModel { cursor: Some(fire), phase: Phase::Idle, ..m },
                Directive::Skip { instant: fire },
            )
        } else {
            (
                CronModel {
                    cursor: Some(fire),
                    wait: (fire - now) as nat,
                    phase: Phase::Waiting,
                    ..m
                },
                Directive::Sleep { wait: (fire - now) as nat },
            )
        },
    }
}

/// The rules of the cron schedule, for a given next instant `upcoming` of
/// the expression: the state after `input` at the time `now`, and what the
/// caller is to do. `upcoming` is read only where `cron_arms` holds.
pub open spec fn cron_step_with(m: CronModel, input: Input, now: int, upcoming: Option<int>) -> (
    CronModel,
    Directive,
) {
    match m.phase {
        Phase::Idle => match input {
            Input::Arm => cron_arm(m, now, upcoming),
            Input::Cancelled => (
                CronModel { phase: Phase::Stopped, ..m },
                Directive::Stop { reason: StopReason::Cancelled },
            ),
            _ => (m, Directive::Ignore),
        },
        Phase::Waiting => match input {
            Input::Cancelled => (
                CronModel { phase: Phase::Stopped, ..m },
                Directive::Stop { reason: StopReason::Cancelled },
            ),
            Input::Elapsed => (
                CronModel { phase: Phase::Running { cancel_requested: false }, ..m },
                Directive::Execute,
            ),
            _ => (m, Directive::Ignore),
        },
        Phase::Running { cancel_requested } => match input {
            Input::Cancelled => (
                CronModel { phase: Phase::Running { cancel_requested: true }, ..m },
                Directive::Ignore,
            ),
            Input::Finished { elapsed, failed } => match stop_after_run(
                m.policy,
                cancel_requested,
                failed,
            ) {
                Some(reason) => (
                    CronModel { phase: Phase::Stopped, ..m },
                    Directive::Stop { reason },
                ),
                None => cron_arm(m, now, upcoming),
            },
            _ => (m, Directive::Ignore),
        },
        Phase::Stopped => (m, Directive::Ignore),
    }
}

/// The rules of the cron schedule: as `cron_step_with`, for the instant
/// that the expression gives next.
pub open spec fn cron_step(m: CronModel, input: Input, now: int) -> (CronModel, Directive) {
    cron_step_with(m, input, now, instant_nanos(next_fire(m.expr, cron_base(m, now))))
}

/// What the cron schedule records when it takes up `upcoming` at `now`.
pub open spec fn cron_arm_events(now: Timestamp, upcoming: Option<Timestamp>) -> Seq<Event> {
    match upcoming {
        None => seq![Event::Stopped { reason: StopReason::Exhausted }],
        Some(fire) => if fire@ <= now@ {
            seq![Event::TickSkipped { instant: fire }]
        } else {
            Seq::empty()
        },
    }
}

/// What the cron schedule records on `signal` at `now`, for a given next
/// instant `upcoming` of the expression.
pub open spec fn cron_events(
    m: CronModel,
    signal: Signal,
    now: Timestamp,
    upcoming: Option<Timestamp>,
) -> Seq<Event> {
    match m.phase {
        Phase::Idle => match signal {
            Signal::Arm => cron_arm_events(now, upcoming),
            Signal::Cancelled => seq![Event::Stopped { reason: StopReason::Cancelled }],
            _ => Seq::empty(),
        },
        Phase::Waiting => match signal {
            Signal::Cancelled => seq![Event::Stopped { reason: StopReason::Cancelled }],
            Signal::Elapsed => seq![Event::TickStart],
            _ => Seq::empty(),
        },
        Phase::Running { cancel_requested } => match signal {
            Signal::Finished { elapsed, outcome } => match stop_after_run(
                m.policy,
                cancel_requested,
                outcome.is_err(),
            ) {
                Some(reason) => seq![run_event(elapsed, outcome), Event::Stopped { reason }],
                None => seq![run_event(elapsed, outcome)] + cron_arm_events(now, upcoming),
            },
            _ => Seq::empty(),
        },
        Phase::Stopped => Seq::empty(),
    }
}

/// A schedule that runs its work at the instants of a cron expression.
pub struct CronSchedule {
    expr: String,
    policy: FailurePolicy,
    cursor: Option<Timestamp>,
    wait: Span,
    phase: Phase,
    root: CancellationToken,
}

impl View for CronSchedule {
    type V = CronModel;

    closed spec fn view(&self) -> CronModel {
        CronModel {
            expr: self.expr@,
            policy: self.policy,
            cursor: instant_nanos(self.cursor),
            wait: self.wait@,
            phase: self.phase,
        }
    }
}

impl CronSchedule {
    /// The expression of a schedule is one that the `cron` crate reads.
    #[verifier::type_invariant]
    pub closed spec fn wf(self) -> bool {
        cron_accepts(self.expr@)
    }

    /// A schedule for the expression `expr`, not yet begun. An expression
    /// that the `cron` crate does not read is refused here, with what the
    /// parser said of it.
    pub fn new(expr: &str, policy: FailurePolicy) -> (r: Result<CronSchedule, ParseError>)
        ensures
            r.is_ok() <==> cron_accepts(expr@),
            r matches Ok(schedule) ==> schedule.wf() && schedule@ == (CronModel {
                expr: expr@,
                policy,
                cursor: None,
                wait: 0,
                phase: Phase::Idle,
            }),
    {
        match parse_expression(expr) {
            Ok(_) => Ok(
                CronSchedule {
                    expr: expr.to_owned(),
                    policy,
                    cursor: None,
                    wait: Span::zero(),
                    phase: Phase::Idle,
                    root: CancellationToken::new(),
                },
            ),
            Err(error) => Err(ParseError { message: error_text(&error) }),
        }
    }

    /// The token of the schedule: the one that was made with it. The schedule
    /// keeps it for good.
    pub closed spec fn own_token(&self) -> CancellationToken {
        self.root
    }

    /// A handle to the token of the schedule: the caller cancels it to stop
    /// the schedule, and finds it cancelled once the schedule gave up.
    pub fn token(&self) -> (r: CancellationToken)
        ensures
            r == self.own_token(),
    {
        self.root.clone()
    }

    /// The cron expression.
    pub fn expression(&self) -> (r: &str)
        ensures
            r@ == self@.expr,
    {
        self.expr.as_str()
    }

    /// What a failed run leads to.
    pub fn policy(&self) -> (r: FailurePolicy)
        ensures
            r == self@.policy,
    {
        self.policy
    }

    /// The instant that came up last; `None` before the first.
    pub fn cursor(&self) -> (r: Option<Timestamp>)
        ensures
            instant_nanos(r) == self@.cursor,
    {
        self.cursor
    }

    /// The wait before the next run.
    pub fn wait(&self) -> (r: Span)
        ensures
            r@ == self@.wait,
    {
        self.wait
    }

    /// Where the schedule stands.
    pub fn phase(&self) -> (r: Phase)
        ensures
            r == self@.phase,
    {
        self.phase
    }

    /// The instant of the expression that comes up next at the time `now`:
    /// the first after the one that came up last, or after `now` for a
    /// schedule that has not begun. It lies in a later second than the
    /// instant it follows.
    pub fn upcoming(&self, now: Timestamp) -> (r: Option<Timestamp>)
        ensures
            r == next_fire(self@.expr, cron_base(self@, now@)),
            r matches Some(fire) ==> fire.wf() && fire@ > cron_base(self@, now@),
    {
        proof {
            use_type_invariant(self);
            use_type_invariant(&now);
        }
        let base: Timestamp = match self.cursor {
            Some(cursor) => cursor,
            None => now,
        };
        let secs: i64 = base.secs();
        let nanos: u32 = base.subsec_nanos();
        if 0 <= secs && secs <= LAST_SECOND {
            match next_fire_after(self.expr.as_str(), secs, nanos) {
                Some(second) => {
                    proof {
                        Timestamp::lemma_at_second(second as int);
                    }
                    Some(Timestamp::from_secs(second))
                },
                None => None,
            }
        } else {
            None
        }
    }

    /// Whether `signal` makes the schedule take up its next instant.
    pub fn arms_on(&self, signal: &Signal) -> (r: bool)
        ensures
            r == cron_arms(self@, signal@),
    {
        match self.phase {
            Phase::Idle => match signal {
                Signal::Arm => true,
                _ => false,
            },
            Phase::Running { cancel_requested } => match signal {
                Signal::Finished { elapsed, outcome } => decide_after_run(
                    self.policy,
                    cancel_requested,
                    outcome.is_err(),
                ).is_none(),
                _ => false,
            },
            _ => false,
        }
    }

    /// Takes `signal` at the time `now`, with `upcoming` as the next instant
    /// of the expression, and moves the schedule on as `cron_step_with`
    /// says. Where a failed run ends the schedule, its token is cancelled.
    pub fn step_with(&mut self, signal: Signal, now: Timestamp, upcoming: Option<Timestamp>) -> (r:
        Step)
        ensures
            final(self)@ == cron_step_with(old(self)@, signal@, now@, instant_nanos(upcoming)).0,
            r.action@ == cron_step_with(old(self)@, signal@, now@, instant_nanos(upcoming)).1,
            r.events@ == cron_events(old(self)@, signal, now, upcoming),
            final(self).own_token() == old(self).own_token(),
    {
        proof {
            use_type_invariant(&*self);
        }
        let mut events: Vec<Event> = Vec::new();
        let action = match self.phase {
            Phase::Idle => match signal {
                Signal::Arm => self.arm(now, upcoming, &mut events),
                Signal::Cancelled => {
                    self.phase = Phase::Stopped;
                    events.push(Event::Stopped { reason: StopReason::Cancelled });
                    Action::Stop { reason: StopReason::Cancelled }
                },
                _ => Action::Ignore,
            },
            Phase::Waiting => match signal {
                Signal::Cancelled => {
                    self.phase = Phase::Stopped;
                    events.push(Event::Stopped { reason: StopReason::Cancelled });
                    Action::Stop { reason: StopReason::Cancelled }
                },
                Signal::Elapsed => {
                    self.phase = Phase::Running { cancel_requested: false };
                    events.push(Event::TickStart);
                    Action::Execute { token: self.root.child_token() }
                },
                _ => Action::Ignore,
            },
            Phase::Running { cancel_requested } => match signal {
                Signal::Cancelled => {
                    self.phase = Phase::Running { cancel_requested: true };
                    Action::Ignore
                },
                Signal::Finished { elapsed, outcome } => {
                    let failed = outcome.is_err();
                    events.push(report_run(elapsed, outcome));
                    match decide_after_run(self.policy, cancel_requested, failed) {
                        Some(reason) => {
                            if let StopReason::FatalError = reason {
                                self.root.cancel();
                            }
                            self.phase = Phase::Stopped;
                            events.push(Event::Stopped { reason });
                            Action::Stop { reason }
                        },
                        None => self.arm(now, upcoming, &mut events),
                    }
                },
                _ => Action::Ignore,
            },
            Phase::Stopped => Action::Ignore,
        };
        Step { action, events }
    }

    /// Takes `signal` at the time `now` and moves the schedule on as
    /// `cron_step` says: as `step_with`, for the instant that the expression
    /// gives next.
    pub fn step(&mut self, signal: Signal, now: Timestamp) -> (r: Step)
        ensures
            final(self)@ == cron_step(old(self)@, signal@, now@).0,
            r.action@ == cron_step(old(self)@, signal@, now@).1,
            r.events@ == cron_events(
                old(self)@,
                signal,
                now,
                next_fire(old(self)@.expr, cron_base(old(self)@, now@)),
            ),
            final(self).own_token() == old(self).own_token(),
    {
        let upcoming: Option<Timestamp> = if self.arms_on(&signal) {
            self.upcoming(now)
        } else {
            None
        };
        self.step_with(signal, now, upcoming)
    }

    /// Takes up `upcoming` at the time `now`, as `cron_arm` says.
    fn arm(&mut self, now: Timestamp, upcoming: Option<Timestamp>, events: &mut Vec<Event>) -> (r:
        Action)
        ensures
            final(self)@ == cron_arm(old(self)@, now@, instant_nanos(upcoming)).0,
            r@ == cron_arm(old(self)@, now@, instant_nanos(upcoming)).1,
            final(events)@ == old(events)@ + cron_arm_events(now, upcoming),
            final(self).own_token() == old(self).own_token(),
    {
        proof {
            use_type_invariant(&*self);
        }
        match upcoming {
            None => {
                self.phase = Phase::Stopped;
                events.push(Event::Stopped { reason: StopReason::Exhausted });
                Action::Stop { reason: StopReason::Exhausted }
            },
            Some(fire) => {
                self.cursor = Some(fire);
                match fire.duration_since(now) {
                    Some(wait) if !wait.is_zero() => {
                        self.wait = wait;
                        self.phase = Phase::Waiting;
                        Action::Sleep { wait }
                    },
                    _ => {
                        self.phase = Phase::Idle;
                        events.push(Event::TickSkipped { instant: fire });
                        Action::Skip { instant: fire }
                    },
                }
            },
        }
    }
}

/// An instant that is not after the time at which it comes up is skipped,
/// not run: the schedule notes it as the last that came up, arms no tick and
/// asks for no run, whether it came up at the start, after a skip or after a
/// run that outlasted it.
pub proof fn law_past_instant_is_skipped(m: CronModel, input: Input, now: int, fire: int)
    requires
        cron_arms(m, input),
        fire <= now,
    ensures
        cron_step_with(m, input, now, Some(fire)) == (
            CronModel { cursor: Some(fire), phase: Phase::Idle, ..m },
            Directive::Skip { instant: fire },
        ),
{
}

/// A tick is armed only for an instant that is after the time at which it
/// came up, and the wait is the time until then. A run is asked for only
/// when the sleep of an armed tick is over: so never for an instant that had
/// passed when it came up, and never while another run is under way.
pub proof fn law_run_only_for_instant_ahead(
    m: CronModel,
    input: Input,
    now: int,
    upcoming: Option<int>,
)
    ensures
        m.phase != Phase::Waiting && cron_step_with(m, input, now, upcoming).0.phase
            == Phase::Waiting ==> (upcoming matches Some(fire) && fire > now && cron_step_with(
            m,
            input,
            now,
            upcoming,
        ).0.cursor == Some(fire) && cron_step_with(m, input, now, upcoming).0.wait == fire - now
            && cron_step_with(m, input, now, upcoming).1 == (Directive::Sleep {
            wait: (fire - now) as nat,
        })),
        cron_step_with(m, input, now, upcoming).1 is Execute ==> m.phase == Phase::Waiting
            && input is Elapsed,
{
}

/// The next instant of the expression is read only where the schedule takes
/// one up: everywhere else the step is the same whatever it is.
pub proof fn law_instant_read_only_when_arming(
    m: CronModel,
    input: Input,
    now: int,
    upcoming: Option<int>,
    other: Option<int>,
)
    requires
        !cron_arms(m, input),
    ensures
        cron_step_with(m, input, now, upcoming) == cron_step_with(m, input, now, other),
{
}

/// A cancellation that is reported before the sleep is over ends the
/// schedule there, and one that is reported while the work runs lets the run
/// finish and ends the schedule after it. Whatever is reported afterwards, a
/// schedule that has taken a cancellation in never asks for a run again.
pub proof fn law_cron_cancellation_is_final(
    m: CronModel,
    input: Input,
    now: int,
    upcoming: Option<int>,
)
    ensures
        cron_step_with(m, Input::Cancelled, now, upcoming).0.phase.cancellation_taken(),
        m.phase == Phase::Waiting || m.phase == Phase::Idle ==> cron_step_with(
            m,
            Input::Cancelled,
            now,
            upcoming,
        ).1 == (Directive::Stop { reason: StopReason::Cancelled }),
        m.phase is Running ==> cron_step_with(m, Input::Cancelled, now, upcoming).0.phase == (
            Phase::Running { cancel_requested: true }
        ),
        m.phase.cancellation_taken() ==> cron_step_with(
            m,
            input,
            now,
            upcoming,
        ).0.phase.cancellation_taken(),
        m.phase.cancellation_taken() ==> !(cron_step_with(m, input, now, upcoming).1 is Execute),
        m.phase.cancellation_taken() && input is Finished ==> cron_step_with(
            m,
            input,
            now,
            upcoming,
        ).0.phase == Phase::Stopped,
{
}

} // verus!
