use marvin_toggl::remote::{
    CurrentSessionStep, INITIAL_BACKOFF_SECS, MAX_RETRIES, RetryStep, current_session_step,
    retry_step,
};
use marvin_toggl::webhook::{WebhookKind, webhook_kind};

#[test]
fn success_statuses_succeed() {
    assert_eq!(retry_step(200, 0, INITIAL_BACKOFF_SECS), RetryStep::Succeed);
    assert_eq!(retry_step(204, 3, 16), RetryStep::Succeed);
}

#[test]
fn hard_failures_fail_at_once() {
    assert_eq!(retry_step(500, 0, INITIAL_BACKOFF_SECS), RetryStep::Fail);
    assert_eq!(retry_step(404, 0, INITIAL_BACKOFF_SECS), RetryStep::Fail);
    assert_eq!(retry_step(199, 0, INITIAL_BACKOFF_SECS), RetryStep::Fail);
    assert_eq!(retry_step(300, 0, INITIAL_BACKOFF_SECS), RetryStep::Fail);
}

#[test]
fn rate_limit_backs_off_exponentially() {
    assert_eq!(
        retry_step(429, 0, 2),
        RetryStep::RetryAfter { delay_secs: 2, retries: 1, backoff_secs: 4 }
    );
    assert_eq!(
        retry_step(429, 4, 32),
        RetryStep::RetryAfter { delay_secs: 32, retries: 5, backoff_secs: 64 }
    );
}

#[test]
fn rate_limit_budget_runs_out() {
    assert_eq!(retry_step(429, MAX_RETRIES, 64), RetryStep::Fail);
    assert_eq!(retry_step(429, MAX_RETRIES + 1, 128), RetryStep::Fail);
}

#[test]
fn a_full_retry_run_doubles_five_times() {
    let mut retries = 0u32;
    let mut backoff = INITIAL_BACKOFF_SECS;
    let mut delays = Vec::new();
    loop {
        match retry_step(429, retries, backoff) {
            RetryStep::RetryAfter { delay_secs, retries: r, backoff_secs } => {
                delays.push(delay_secs);
                retries = r;
                backoff = backoff_secs;
            }
            RetryStep::Fail => break,
            RetryStep::Succeed => unreachable!(),
        }
    }
    assert_eq!(delays, vec![2, 4, 8, 16, 32]);
}

#[test]
fn current_session_statuses_are_classified() {
    assert_eq!(current_session_step(200), CurrentSessionStep::ParseSession);
    assert_eq!(current_session_step(404), CurrentSessionStep::Absent);
    assert_eq!(current_session_step(204), CurrentSessionStep::ParseMaybe);
    assert_eq!(current_session_step(500), CurrentSessionStep::Error);
    assert_eq!(current_session_step(401), CurrentSessionStep::Error);
}

#[test]
fn webhook_types_map_to_kinds() {
    assert_eq!(webhook_kind("add"), WebhookKind::AddItem);
    assert_eq!(webhook_kind("addTask"), WebhookKind::AddItem);
    assert_eq!(webhook_kind("addProject"), WebhookKind::AddItem);
    assert_eq!(webhook_kind("addHabit"), WebhookKind::AddHabit);
    assert_eq!(webhook_kind("addTimer"), WebhookKind::AddTimer);
    assert_eq!(webhook_kind("timerDone"), WebhookKind::TimerDone);
    assert_eq!(webhook_kind("markDone"), WebhookKind::MarkDone);
    assert_eq!(webhook_kind("markDoneTask"), WebhookKind::MarkDone);
    assert_eq!(webhook_kind("markDoneProject"), WebhookKind::MarkDone);
    assert_eq!(webhook_kind("editHabit"), WebhookKind::EditHabit);
    assert_eq!(webhook_kind("somethingElse"), WebhookKind::Other);
    assert_eq!(webhook_kind(""), WebhookKind::Other);
}
