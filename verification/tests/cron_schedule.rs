//! The cron schedule, driven in simulated time against the real expression
//! reader.

use drift::{
    Action, CronSchedule, DriftError, Event, ExecutionError, FailurePolicy, Phase, Signal, Span,
    Step, StopReason, Timestamp,
};

/// 2023-11-14T22:13:20Z.
const START: i64 = 1_700_000_000;

fn at(secs: i64, nanos: u32) -> Timestamp {
    Timestamp::new(secs, nanos).unwrap()
}

fn later(t: Timestamp, span: Span) -> Timestamp {
    let nanos = t.subsec_nanos() + span.subsec_nanos();
    at(
        t.secs() + i64::try_from(span.as_secs()).unwrap() + i64::from(nanos / 1_000_000_000),
        nanos % 1_000_000_000,
    )
}

fn every_second() -> CronSchedule {
    CronSchedule::new("* * * * * *", FailurePolicy::ContinueOnError).unwrap()
}

/// What a simulated run of a schedule came to.
struct Outcome {
    runs: usize,
    starts: Vec<Timestamp>,
    events: Vec<Event>,
}

/// Plays the caller's part from `start` for `horizon`: sleeps as told and
/// runs a piece of work that takes `work` each time.
fn drive(schedule: &mut CronSchedule, start: Timestamp, horizon: Span, work: Span) -> Outcome {
    let end = later(start, horizon);
    let mut clock = start;
    let mut out = Outcome { runs: 0, starts: Vec::new(), events: Vec::new() };
    let mut step: Step = schedule.step(Signal::Arm, clock);
    loop {
        out.events.append(&mut step.events);
        step = match step.action {
            Action::Sleep { wait } => {
                let wake = later(clock, wait);
                if end.duration_since(wake).is_none() {
                    break;
                }
                clock = wake;
                schedule.step(Signal::Elapsed, clock)
            }
            Action::Execute { token: _ } => {
                out.runs += 1;
                out.starts.push(clock);
                clock = later(clock, work);
                schedule.step(Signal::Finished { elapsed: work, outcome: Ok(()) }, clock)
            }
            Action::Skip { .. } => schedule.step(Signal::Arm, clock),
            Action::Stop { .. } => break,
            Action::Ignore => unreachable!(),
        };
    }
    out
}

#[test]
fn test_cron() {
    let mut schedule = every_second();
    let token = schedule.token();

    let out =
        drive(&mut schedule, at(START, 250_000_000), Span::new(5, 0).unwrap(), Span::from_millis(50));

    assert!(!token.is_cancelled());
    assert!(out.events.contains(&Event::TickStart));
    assert!(out.events.contains(&Event::TickSuccess { elapsed_ms: 50 }));
    assert!(out.runs >= 4 && out.runs <= 6);
    assert_eq!(
        out.starts,
        vec![at(START + 1, 0), at(START + 2, 0), at(START + 3, 0), at(START + 4, 0), at(START + 5, 0)]
    );
}

#[test]
fn test_cron_no_wait() {
    let mut schedule = every_second();
    let token = schedule.token();

    let out = drive(&mut schedule, at(START, 250_000_000), Span::new(5, 0).unwrap(), Span::zero());

    assert!(!token.is_cancelled());
    assert!(out.events.contains(&Event::TickStart));
    assert!(out.events.contains(&Event::TickSuccess { elapsed_ms: 0 }));
    assert!(out.runs >= 4 && out.runs <= 6);
}

#[test]
fn test_cron_job_taking_longer_than_cycle() {
    let mut schedule = every_second();
    let token = schedule.token();

    let out = drive(
        &mut schedule,
        at(START, 250_000_000),
        Span::new(5, 0).unwrap(),
        Span::from_millis(1500),
    );

    assert!(!token.is_cancelled());
    // Each run outlasts the next instant, which is then left out: runs start
    // two seconds apart and never overlap.
    assert_eq!(out.starts, vec![at(START + 1, 0), at(START + 3, 0), at(START + 5, 0)]);
    let skipped: Vec<&Event> =
        out.events.iter().filter(|e| matches!(e, Event::TickSkipped { .. })).collect();
    assert_eq!(
        skipped,
        vec![
            &Event::TickSkipped { instant: at(START + 2, 0) },
            &Event::TickSkipped { instant: at(START + 4, 0) },
            &Event::TickSkipped { instant: at(START + 6, 0) }
        ]
    );
}

#[test]
fn new_schedule_has_not_begun() {
    let schedule = CronSchedule::new("0 30 9 * * *", FailurePolicy::CancelOnError).unwrap();
    assert_eq!(schedule.expression(), "0 30 9 * * *");
    assert_eq!(schedule.policy(), FailurePolicy::CancelOnError);
    assert_eq!(schedule.cursor(), None);
    assert_eq!(schedule.wait(), Span::zero());
    assert_eq!(schedule.phase(), Phase::Idle);
}

#[test]
fn upcoming_is_the_next_instant_of_the_expression() {
    // Half past nine every morning; asked at midnight of 2024-01-01.
    let schedule = CronSchedule::new("0 30 9 * * *", FailurePolicy::ContinueOnError).unwrap();
    let midnight = at(1_704_067_200, 0);
    assert_eq!(schedule.upcoming(midnight), Some(at(1_704_067_200 + 9 * 3600 + 30 * 60, 0)));
    // Asked at the instant itself, the next is a day on.
    let half_past_nine = at(1_704_067_200 + 9 * 3600 + 30 * 60, 0);
    assert_eq!(schedule.upcoming(half_past_nine), Some(at(1_704_067_200 + 86_400 + 34_200, 0)));
}

#[test]
fn upcoming_lies_in_a_later_second() {
    let schedule = every_second();
    assert_eq!(schedule.upcoming(at(START, 0)), Some(at(START + 1, 0)));
    assert_eq!(schedule.upcoming(at(START, 999_999_999)), Some(at(START + 1, 0)));
    assert_eq!(schedule.upcoming(at(0, 0)), Some(at(1, 0)));
}

#[test]
fn upcoming_is_none_outside_the_years_of_cron() {
    let schedule = every_second();
    // 2100-12-31T23:59:59Z is the last second a cron expression reaches.
    assert_eq!(schedule.upcoming(at(4_133_980_798, 0)), Some(at(4_133_980_799, 0)));
    assert_eq!(schedule.upcoming(at(4_133_980_799, 0)), None);
    assert_eq!(schedule.upcoming(at(253_402_300_799, 0)), None);
    assert_eq!(schedule.upcoming(at(253_402_300_800, 0)), None);
    assert_eq!(schedule.upcoming(at(i64::MAX, 0)), None);
    assert_eq!(schedule.upcoming(at(-1, 0)), None);
}

#[test]
fn arm_waits_until_the_next_instant() {
    let mut schedule = every_second();

    let step = schedule.step(Signal::Arm, at(START, 250_000_000));

    assert!(matches!(step.action, Action::Sleep { wait } if wait == Span::from_millis(750)));
    assert!(step.events.is_empty());
    assert_eq!(schedule.cursor(), Some(at(START + 1, 0)));
    assert_eq!(schedule.wait(), Span::from_millis(750));
    assert_eq!(schedule.phase(), Phase::Waiting);
}

#[test]
fn instant_in_the_past_is_skipped_not_run() {
    let mut schedule = every_second();

    let step = schedule.step_with(Signal::Arm, at(START, 0), Some(at(START - 10, 0)));

    assert!(matches!(step.action, Action::Skip { instant } if instant == at(START - 10, 0)));
    assert_eq!(step.events, vec![Event::TickSkipped { instant: at(START - 10, 0) }]);
    assert_eq!(schedule.cursor(), Some(at(START - 10, 0)));
    assert_eq!(schedule.phase(), Phase::Idle);
    // No run can be had from it.
    let step = schedule.step(Signal::Elapsed, at(START, 0));
    assert!(matches!(step.action, Action::Ignore));
}

#[test]
fn instant_that_is_now_is_skipped() {
    let mut schedule = every_second();

    let step = schedule.step_with(Signal::Arm, at(START, 5), Some(at(START, 5)));

    assert!(matches!(step.action, Action::Skip { .. }));
}

#[test]
fn instant_one_nanosecond_ahead_is_waited_for() {
    let mut schedule = every_second();

    let step = schedule.step_with(Signal::Arm, at(START, 999_999_999), Some(at(START + 1, 0)));

    assert!(matches!(step.action, Action::Sleep { wait } if wait == Span::new(0, 1).unwrap()));
}

#[test]
fn skipped_instants_are_walked_in_order() {
    let mut schedule = every_second();
    schedule.step(Signal::Arm, at(START, 0));
    schedule.step(Signal::Elapsed, at(START + 1, 0));

    // The run took until START + 3.5: the instants at +2 and +3 have passed.
    let now = at(START + 3, 500_000_000);
    let step = schedule.step(
        Signal::Finished { elapsed: Span::from_millis(2500), outcome: Ok(()) },
        now,
    );
    assert!(matches!(step.action, Action::Skip { instant } if instant == at(START + 2, 0)));
    assert_eq!(
        step.events,
        vec![
            Event::TickSuccess { elapsed_ms: 2500 },
            Event::TickSkipped { instant: at(START + 2, 0) }
        ]
    );
    let step = schedule.step(Signal::Arm, now);
    assert!(matches!(step.action, Action::Skip { instant } if instant == at(START + 3, 0)));
    let step = schedule.step(Signal::Arm, now);
    assert!(matches!(step.action, Action::Sleep { wait } if wait == Span::from_millis(500)));
    assert_eq!(schedule.cursor(), Some(at(START + 4, 0)));
}

#[test]
fn schedule_ends_when_the_expression_has_no_instant_left() {
    let mut schedule = every_second();

    let step = schedule.step_with(Signal::Arm, at(START, 0), None);

    assert!(matches!(step.action, Action::Stop { reason: StopReason::Exhausted }));
    assert_eq!(step.events, vec![Event::Stopped { reason: StopReason::Exhausted }]);
    assert_eq!(schedule.phase(), Phase::Stopped);

    let mut schedule = every_second();
    let step = schedule.step(Signal::Arm, at(4_133_980_799, 0));
    assert!(matches!(step.action, Action::Stop { reason: StopReason::Exhausted }));
}

#[test]
fn cron_failure_is_tolerated_under_continue_on_error() {
    let mut schedule = every_second();
    let token = schedule.token();
    schedule.step(Signal::Arm, at(START, 0));
    schedule.step(Signal::Elapsed, at(START + 1, 0));
    let error = ExecutionError::JobFailed(DriftError::JobError("boom".to_string()));

    let step = schedule.step(
        Signal::Finished { elapsed: Span::from_millis(100), outcome: Err(error.clone()) },
        at(START + 1, 100_000_000),
    );

    assert!(matches!(step.action, Action::Sleep { wait } if wait == Span::from_millis(900)));
    assert_eq!(step.events, vec![Event::TickFailure { error }]);
    assert!(!token.is_cancelled());
}

#[test]
fn cron_failure_cancels_the_token_under_cancel_on_error() {
    let mut schedule = CronSchedule::new("* * * * * *", FailurePolicy::CancelOnError).unwrap();
    let token = schedule.token();
    schedule.step(Signal::Arm, at(START, 0));
    schedule.step(Signal::Elapsed, at(START + 1, 0));
    let error = ExecutionError::JobFailed(DriftError::JobError("boom".to_string()));

    let step = schedule.step(
        Signal::Finished { elapsed: Span::from_millis(100), outcome: Err(error.clone()) },
        at(START + 1, 100_000_000),
    );

    assert!(matches!(step.action, Action::Stop { reason: StopReason::FatalError }));
    assert_eq!(
        step.events,
        vec![Event::TickFailure { error }, Event::Stopped { reason: StopReason::FatalError }]
    );
    assert!(token.is_cancelled());
    assert_eq!(schedule.cursor(), Some(at(START + 1, 0)));
}

#[test]
fn cron_cancel_while_waiting_prevents_the_run() {
    let mut schedule = every_second();
    schedule.step(Signal::Arm, at(START, 0));

    let step = schedule.step(Signal::Cancelled, at(START, 500_000_000));

    assert!(matches!(step.action, Action::Stop { reason: StopReason::Cancelled }));
    assert_eq!(schedule.phase(), Phase::Stopped);
    let step = schedule.step(Signal::Elapsed, at(START + 1, 0));
    assert!(matches!(step.action, Action::Ignore));
}

#[test]
fn cron_cancel_during_a_run_lets_it_finish_and_then_stops() {
    let mut schedule = every_second();
    schedule.step(Signal::Arm, at(START, 0));
    schedule.step(Signal::Elapsed, at(START + 1, 0));

    let step = schedule.step(Signal::Cancelled, at(START + 1, 10));
    assert!(matches!(step.action, Action::Ignore));
    assert_eq!(schedule.phase(), Phase::Running { cancel_requested: true });

    let step = schedule.step(
        Signal::Finished { elapsed: Span::from_millis(5), outcome: Ok(()) },
        at(START + 1, 5_000_000),
    );
    assert!(matches!(step.action, Action::Stop { reason: StopReason::Cancelled }));
}

#[test]
fn arms_on_tells_when_the_next_instant_is_taken_up() {
    let mut schedule = every_second();
    let finished = || Signal::Finished { elapsed: Span::zero(), outcome: Ok(()) };
    assert!(schedule.arms_on(&Signal::Arm));
    assert!(!schedule.arms_on(&Signal::Elapsed));
    assert!(!schedule.arms_on(&finished()));
    schedule.step(Signal::Arm, at(START, 0));
    assert!(!schedule.arms_on(&Signal::Arm));
    schedule.step(Signal::Elapsed, at(START + 1, 0));
    assert!(schedule.arms_on(&finished()));
    schedule.step(Signal::Cancelled, at(START + 1, 0));
    assert!(!schedule.arms_on(&finished()));
}

#[test]
fn cron_token_is_a_handle_to_the_one_token_of_the_schedule() {
    let mut schedule = every_second();
    let other = every_second();

    let first = schedule.token();
    schedule.step(Signal::Arm, at(START, 0));
    schedule.step(Signal::Elapsed, at(START + 1, 0));
    let second = schedule.token();

    assert_eq!(first, second);
    assert_ne!(first, other.token());
    second.cancel();
    assert!(first.is_cancelled());
    assert!(!other.token().is_cancelled());
}
