//! Failures of work and of cron expressions.

use drift::{job_result, CronSchedule, DriftError, ExecutionError, FailurePolicy, FuncDrifter};

#[test]
fn job_result_keeps_success() {
    assert_eq!(job_result(Ok(())), Ok(()));
}

#[test]
fn job_result_wraps_the_failure_as_it_came() {
    let inner = DriftError::JobError("disk full".to_string());
    assert_eq!(job_result(Err(inner.clone())), Err(ExecutionError::JobFailed(inner)));
}

#[test]
fn drift_error_message_names_the_inner_error() {
    let error = DriftError::JobError("disk full".to_string());
    assert_eq!(error.message(), "job failed with inner error: disk full");
    assert_eq!(DriftError::JobError(String::new()).message(), "job failed with inner error: ");
}

#[test]
fn execution_error_message_is_that_of_the_job() {
    let error = ExecutionError::JobFailed(DriftError::JobError("disk full".to_string()));
    assert_eq!(error.message(), "job failed with inner error: disk full");
}

#[test]
fn malformed_cron_expression_is_refused_at_creation() {
    let error = CronSchedule::new("not a cron line", FailurePolicy::ContinueOnError)
        .err()
        .expect("the expression is malformed");
    assert!(!error.message.is_empty());
    assert!(CronSchedule::new("", FailurePolicy::ContinueOnError).is_err());
    assert!(CronSchedule::new("* * * * *", FailurePolicy::ContinueOnError).is_err());
    assert!(CronSchedule::new("61 * * * * *", FailurePolicy::ContinueOnError).is_err());
}

#[test]
fn func_drifter_hands_out_the_callable_it_was_made_from() {
    let drifter = FuncDrifter::new(|| async { Ok::<(), DriftError>(()) });
    let copy = drifter.clone();
    // Both handles lead to the one callable.
    assert!(std::ptr::eq(drifter.func(), copy.func()));
    let _future = (copy.func())();
}
