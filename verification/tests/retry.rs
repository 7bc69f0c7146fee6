use db2_exporter::download_task::DownloadTask;
use db2_exporter::entities::Build;
use db2_exporter::outcome::{FailureReason, FetchOutcome, TaskOutcome};
use db2_exporter::retry::{RetryPolicy, RetryStep};

fn task() -> DownloadTask {
    DownloadTask::new("Spell".to_string(), Build::new("11.0.5", 57212), "enUS".to_string())
}

fn timeout() -> FetchOutcome {
    FetchOutcome::Failed(FailureReason::Timeout { detail: "timed out".to_string() })
}

/// Runs the policy over a fetch that answers from `script`, the last answer
/// for ever; returns the number of attempts and the outcome.
fn drive(policy: RetryPolicy, script: Vec<FetchOutcome>) -> (usize, TaskOutcome) {
    let task = task();
    let mut attempts = 0;
    let mut retries_used = 0;
    loop {
        let outcome = script[attempts.min(script.len() - 1)].clone();
        attempts += 1;
        match policy.decide(&task, retries_used, outcome) {
            RetryStep::Finish(outcome) => return (attempts, outcome),
            RetryStep::RetryAfter { delay_secs, retries_used: used } => {
                assert_eq!(delay_secs, policy.retry_delay_secs);
                assert_eq!(used, retries_used + 1);
                retries_used = used;
            }
        }
    }
}

#[test]
fn always_transient_is_attempted_once_more_than_the_budget() {
    for budget in [0u32, 1, 3, 10] {
        let (attempts, outcome) = drive(RetryPolicy::new(budget, 5), vec![timeout()]);
        assert_eq!(attempts, budget as usize + 1);
        assert_eq!(
            outcome,
            TaskOutcome::Failed(FailureReason::RetriesExhausted { table: "Spell".to_string() })
        );
    }
}

#[test]
fn budget_of_zero_means_one_attempt() {
    let policy = RetryPolicy::new(0, 5);
    assert_eq!(
        policy.decide(&task(), 0, timeout()),
        RetryStep::Finish(TaskOutcome::Failed(FailureReason::RetriesExhausted {
            table: "Spell".to_string()
        }))
    );
}

#[test]
fn success_at_attempt_k_stops_there() {
    let policy = RetryPolicy::new(3, 5);
    for k in 1..=4usize {
        let mut script = vec![timeout(); k - 1];
        script.push(FetchOutcome::Downloaded);
        script.push(timeout());
        assert_eq!(drive(policy, script), (k, TaskOutcome::Succeeded));
    }
    assert_eq!(drive(policy, vec![FetchOutcome::Skipped]), (1, TaskOutcome::Skipped));
}

#[test]
fn other_failures_are_attempted_once() {
    let reasons = vec![
        FailureReason::Status { table: "Spell".to_string(), status: 503 },
        FailureReason::Status { table: "Spell".to_string(), status: 404 },
        FailureReason::Io { detail: "disk full".to_string() },
        FailureReason::Transport { detail: "connection refused".to_string() },
    ];
    for budget in [0u32, 3, 100] {
        for reason in &reasons {
            let (attempts, outcome) =
                drive(RetryPolicy::new(budget, 5), vec![FetchOutcome::Failed(reason.clone())]);
            assert_eq!(attempts, 1);
            assert_eq!(outcome, TaskOutcome::Failed(reason.clone()));
        }
    }
}

#[test]
fn delay_is_the_same_for_every_retry() {
    let policy = RetryPolicy::new(2, 9);
    assert_eq!(
        policy.decide(&task(), 0, timeout()),
        RetryStep::RetryAfter { delay_secs: 9, retries_used: 1 }
    );
    assert_eq!(
        policy.decide(&task(), 1, timeout()),
        RetryStep::RetryAfter { delay_secs: 9, retries_used: 2 }
    );
    assert!(matches!(policy.decide(&task(), 2, timeout()), RetryStep::Finish(_)));
    assert!(matches!(policy.decide(&task(), 7, timeout()), RetryStep::Finish(_)));
}

#[test]
fn only_timeouts_are_transient() {
    assert!(FailureReason::Timeout { detail: String::new() }.is_transient());
    assert!(!FailureReason::Status { table: String::new(), status: 408 }.is_transient());
    assert!(!FailureReason::Io { detail: String::new() }.is_transient());
    assert!(!FailureReason::Transport { detail: String::new() }.is_transient());
    assert!(!FailureReason::RetriesExhausted { table: String::new() }.is_transient());
}
