use db2_exporter::download_task::DownloadTask;
use db2_exporter::entities::Build;
use db2_exporter::fetch::{classify_request_failure, FetchAction, FetchAttempt, FetchEvent, USER_AGENT};
use db2_exporter::file::file_exists_with_size;
use db2_exporter::outcome::{FailureReason, FetchOutcome};

fn attempt() -> FetchAttempt {
    let task =
        DownloadTask::new("Achievement".to_string(), Build::new("11.0.5", 57212), "ruRU".to_string());
    FetchAttempt::new(task, "https://wago.tools/db2".to_string())
}

fn path() -> String {
    "11.0.5.57212/ruRU/Achievement.csv".to_string()
}

fn reach_request(attempt: &mut FetchAttempt) -> FetchAction {
    attempt.advance(FetchEvent::PermitGranted);
    attempt.advance(FetchEvent::Probed { size: None });
    attempt.advance(FetchEvent::DirReady)
}

#[test]
fn steps_of_a_download() {
    let mut attempt = attempt();
    assert_eq!(attempt.pending(), FetchAction::AcquirePermit);
    assert_eq!(attempt.outcome(), None);
    assert_eq!(attempt.advance(FetchEvent::PermitGranted), FetchAction::Probe { path: path() });
    assert_eq!(
        attempt.advance(FetchEvent::Probed { size: None }),
        FetchAction::CreateDir { path: "11.0.5.57212/ruRU".to_string() }
    );
    assert_eq!(
        attempt.advance(FetchEvent::DirReady),
        FetchAction::Get {
            url: "https://wago.tools/db2/Achievement/csv?build=11.0.5.57212&locale=ruRU"
                .to_string(),
            user_agent: "Mozilla/5.0 (Windows NT 10.0; Win64; x64) AppleWebKit/537.36".to_string(),
        }
    );
    assert_eq!(
        attempt.advance(FetchEvent::Responded { status: 200 }),
        FetchAction::Write { path: path() }
    );
    assert_eq!(attempt.outcome(), None);
    assert_eq!(attempt.advance(FetchEvent::Written), FetchAction::Finish(FetchOutcome::Downloaded));
    assert_eq!(attempt.outcome(), Some(FetchOutcome::Downloaded));
    assert_eq!(
        attempt.advance(FetchEvent::Responded { status: 500 }),
        FetchAction::Finish(FetchOutcome::Downloaded)
    );
}

#[test]
fn file_with_data_is_skipped_without_a_request() {
    for size in [1u64, 16, u64::MAX] {
        let mut attempt = attempt();
        attempt.advance(FetchEvent::PermitGranted);
        let action = attempt.advance(FetchEvent::Probed { size: Some(size) });
        assert_eq!(action, FetchAction::Finish(FetchOutcome::Skipped));
        for event in [FetchEvent::DirReady, FetchEvent::Responded { status: 200 }, FetchEvent::Written] {
            assert_eq!(attempt.advance(event), FetchAction::Finish(FetchOutcome::Skipped));
        }
    }
}

#[test]
fn empty_file_is_fetched_again() {
    let mut attempt = attempt();
    attempt.advance(FetchEvent::PermitGranted);
    assert_eq!(
        attempt.advance(FetchEvent::Probed { size: Some(0) }),
        FetchAction::CreateDir { path: "11.0.5.57212/ruRU".to_string() }
    );
}

#[test]
fn statuses_outside_the_success_class_fail_the_attempt() {
    for status in [100u16, 199, 300, 301, 404, 408, 500, 999] {
        let mut attempt = attempt();
        reach_request(&mut attempt);
        assert_eq!(
            attempt.advance(FetchEvent::Responded { status }),
            FetchAction::Finish(FetchOutcome::Failed(FailureReason::Status {
                table: "Achievement".to_string(),
                status,
            }))
        );
    }
    for status in [200u16, 201, 204, 299] {
        let mut attempt = attempt();
        reach_request(&mut attempt);
        assert_eq!(
            attempt.advance(FetchEvent::Responded { status }),
            FetchAction::Write { path: path() }
        );
    }
}

#[test]
fn failures_of_directory_request_and_write() {
    let mut a = attempt();
    a.advance(FetchEvent::PermitGranted);
    a.advance(FetchEvent::Probed { size: None });
    assert_eq!(
        a.advance(FetchEvent::DirFailed { detail: "read-only".to_string() }),
        FetchAction::Finish(FetchOutcome::Failed(FailureReason::Io {
            detail: "read-only".to_string()
        }))
    );

    let mut b = attempt();
    reach_request(&mut b);
    assert_eq!(
        b.advance(FetchEvent::RequestFailed { timed_out: true, detail: "late".to_string() }),
        FetchAction::Finish(FetchOutcome::Failed(FailureReason::Timeout {
            detail: "late".to_string()
        }))
    );

    let mut c = attempt();
    reach_request(&mut c);
    assert_eq!(
        c.advance(FetchEvent::RequestFailed { timed_out: false, detail: "refused".to_string() }),
        FetchAction::Finish(FetchOutcome::Failed(FailureReason::Transport {
            detail: "refused".to_string()
        }))
    );

    let mut d = attempt();
    reach_request(&mut d);
    d.advance(FetchEvent::Responded { status: 200 });
    assert_eq!(
        d.advance(FetchEvent::WriteFailed { detail: "disk full".to_string() }),
        FetchAction::Finish(FetchOutcome::Failed(FailureReason::Io {
            detail: "disk full".to_string()
        }))
    );

    let mut e = attempt();
    reach_request(&mut e);
    e.advance(FetchEvent::Responded { status: 200 });
    assert_eq!(
        e.advance(FetchEvent::RequestFailed { timed_out: true, detail: "body".to_string() }),
        FetchAction::Finish(FetchOutcome::Failed(FailureReason::Timeout {
            detail: "body".to_string()
        }))
    );
}

#[test]
fn unexpected_reports_leave_the_attempt_where_it_is() {
    let mut attempt = attempt();
    assert_eq!(attempt.advance(FetchEvent::Written), FetchAction::AcquirePermit);
    assert_eq!(attempt.advance(FetchEvent::Responded { status: 200 }), FetchAction::AcquirePermit);
    attempt.advance(FetchEvent::PermitGranted);
    assert_eq!(attempt.advance(FetchEvent::PermitGranted), FetchAction::Probe { path: path() });
    assert_eq!(attempt.advance(FetchEvent::DirReady), FetchAction::Probe { path: path() });
}

#[test]
fn probe_counts_only_files_with_data() {
    assert!(!file_exists_with_size(None));
    assert!(!file_exists_with_size(Some(0)));
    assert!(file_exists_with_size(Some(1)));
    assert!(file_exists_with_size(Some(u64::MAX)));
}

#[test]
fn request_failures_are_classified_by_timeout() {
    assert_eq!(
        classify_request_failure(true, "x".to_string()),
        FailureReason::Timeout { detail: "x".to_string() }
    );
    assert_eq!(
        classify_request_failure(false, "x".to_string()),
        FailureReason::Transport { detail: "x".to_string() }
    );
    assert_eq!(USER_AGENT, "Mozilla/5.0 (Windows NT 10.0; Win64; x64) AppleWebKit/537.36");
}
