use client_downloader::artifact::{Artifact, ArtifactKind};
use client_downloader::downloader::{AssetIndexInfo, ClientDownloader};
use client_downloader::error::DownloadError;
use client_downloader::job::{DownloadJob, JobResult, Phase};
use client_downloader::progress::ProgressReporter;

fn artifact(name: &str, size: u64) -> Artifact {
    Artifact::new(
        format!("https://example.invalid/{}", name),
        format!("objects/{}", name),
        None,
        Some(size),
        ArtifactKind::LooseResource,
    )
}

fn rows(n: usize, attempts: usize, failing: &[usize]) -> Vec<Vec<bool>> {
    (0..n).map(|i| vec![!failing.contains(&i); attempts]).collect()
}

#[test]
fn job_builder_applies_policy() {
    let job = DownloadJob::new("Version & Libraries");
    assert_eq!(job.config.concurrency_limit, 16);
    assert_eq!(job.config.max_attempts, 5);
    assert!(!job.config.ignore_failures);
    let job = job.ignore_failures(true).concurrent_downloads(4).max_download_attempts(2);
    assert!(job.config.ignore_failures);
    assert_eq!(job.config.concurrency_limit, 4);
    assert_eq!(job.config.max_attempts, 2);
}

#[test]
fn create_download_job_shares_the_downloader_policy() {
    let dl = ClientDownloader::new(7, 3, ProgressReporter::new());
    let job = dl.create_download_job("Resources");
    assert_eq!(job.config.concurrency_limit, 7);
    assert_eq!(job.config.max_attempts, 3);
    assert!(!job.config.ignore_failures);
    assert_eq!(job.name, "Resources");
    assert!(job.artifacts.is_empty());
}

#[test]
fn concurrency_bound_is_enforced_by_the_machine() {
    // Limit 2, three artifacts: a third start is refused while two are
    // in flight, and allowed again after one completes.
    let mut progress = ProgressReporter::new();
    progress.register_batch(3, 0);
    let mut job = DownloadJob::new("bound")
        .concurrent_downloads(2)
        .max_download_attempts(1)
        .add_downloadables(vec![artifact("a", 1), artifact("b", 1), artifact("c", 1)]);
    let first = job.start_next().expect("first start");
    let second = job.start_next().expect("second start");
    assert_eq!(job.start_next(), None);
    assert_eq!(job.active_count, 2);
    job.complete_attempt(first, None, &mut progress);
    let third = job.start_next().expect("third start after a completion");
    assert_eq!(job.start_next(), None);
    job.complete_attempt(second, None, &mut progress);
    job.complete_attempt(third, None, &mut progress);
    assert!(job.is_finished());
}

#[test]
fn retry_exhaustion_takes_exactly_max_attempts() {
    let mut progress = ProgressReporter::new();
    progress.register_batch(1, 0);
    let mut job = DownloadJob::new("exhaust")
        .concurrent_downloads(1)
        .max_download_attempts(5)
        .add_downloadables(vec![artifact("doomed", 1)]);
    job.run_scripted(&rows(1, 5, &[0]), &mut progress);
    assert_eq!(job.attempts[0], 5);
    assert_eq!(job.status[0], Phase::DoneFailed);
    match job.result() {
        JobResult::Failed { first } => {
            assert_eq!(first.attempts, 5);
            assert_eq!(first.local_path, "objects/doomed");
            assert!(matches!(first.cause, DownloadError::NetworkFailure { .. }));
        },
        other => panic!("expected failure, got {:?}", other),
    }
}

#[test]
fn success_after_retries_consumes_only_the_attempts_used() {
    let mut progress = ProgressReporter::new();
    progress.register_batch(1, 0);
    let mut job = DownloadJob::new("flaky")
        .concurrent_downloads(1)
        .max_download_attempts(5)
        .add_downloadables(vec![artifact("flaky", 1)]);
    job.run_scripted(&vec![vec![false, false, true, true, true]], &mut progress);
    assert_eq!(job.status[0], Phase::DoneValid);
    assert_eq!(job.attempts[0], 3);
    match job.result() {
        JobResult::Completed { verified, failures } => {
            assert_eq!(verified, 1);
            assert!(failures.is_empty());
        },
        other => panic!("expected completion, got {:?}", other),
    }
}

#[test]
fn fail_fast_reports_overall_failure() {
    let mut progress = ProgressReporter::new();
    progress.register_batch(10, 0);
    let mut job = DownloadJob::new("failfast")
        .concurrent_downloads(3)
        .max_download_attempts(2)
        .add_downloadables((0..10).map(|i| artifact(&format!("a{}", i), 1)).collect());
    job.run_scripted(&rows(10, 2, &[0]), &mut progress);
    assert!(matches!(job.result(), JobResult::Failed { .. }));
}

#[test]
fn ignore_failures_records_one_failure_and_nine_successes() {
    let mut progress = ProgressReporter::new();
    progress.register_batch(10, 0);
    let mut job = DownloadJob::new("tolerant")
        .ignore_failures(true)
        .concurrent_downloads(3)
        .max_download_attempts(2)
        .add_downloadables((0..10).map(|i| artifact(&format!("b{}", i), 1)).collect());
    job.run_scripted(&rows(10, 2, &[4]), &mut progress);
    match job.result() {
        JobResult::Completed { verified, failures } => {
            assert_eq!(verified, 9);
            assert_eq!(failures.len(), 1);
            assert_eq!(failures[0].local_path, "objects/b4");
            assert_eq!(failures[0].attempts, 2);
        },
        other => panic!("expected completion with one failure, got {:?}", other),
    }
}

#[test]
fn progress_counts_every_terminal_artifact_once() {
    let mut progress = ProgressReporter::new();
    progress.register_batch(3, 30);
    let mut job = DownloadJob::new("progress")
        .ignore_failures(true)
        .concurrent_downloads(2)
        .max_download_attempts(2)
        .add_downloadables(vec![artifact("tex0", 10), artifact("tex1", 10), artifact("tex2", 10)]);
    job.run_scripted(&rows(3, 2, &[1]), &mut progress);
    let (total, completed, total_bytes, completed_bytes) = progress.snapshot();
    assert_eq!(total, 3);
    assert_eq!(completed, 3);
    assert_eq!(total_bytes, 30);
    assert_eq!(completed_bytes, 30);
}

#[test]
fn progress_snapshots_never_decrease() {
    let mut progress = ProgressReporter::new();
    progress.register_batch(4, 0);
    let mut job = DownloadJob::new("monotonic")
        .concurrent_downloads(2)
        .max_download_attempts(1)
        .add_downloadables((0..4).map(|i| artifact(&format!("m{}", i), 1)).collect());
    let mut last = progress.snapshot().1;
    while !job.is_finished() {
        match job.start_next() {
            Some(i) => {
                job.complete_attempt(i, None, &mut progress);
                let now = progress.snapshot().1;
                assert!(now >= last);
                last = now;
            },
            None => break,
        }
    }
    assert_eq!(progress.snapshot().1, 4);
}

#[test]
fn failing_core_batch_never_starts_the_resource_batch() {
    let mut dl = ClientDownloader::new(2, 2, ProgressReporter::new());
    let version = vec![artifact("core.jar", 5), artifact("lib.jar", 5)];
    let assets = vec![artifact("r0", 1), artifact("r1", 1)];
    let (vres, ares) = dl.download_version(
        version,
        assets,
        &rows(2, 2, &[1]),
        &rows(2, 2, &[]),
    );
    match vres {
        JobResult::Failed { first } => {
            assert_eq!(first.local_path, "objects/lib.jar");
            assert_eq!(first.attempts, 2);
            assert!(matches!(first.cause, DownloadError::NetworkFailure { .. }));
        },
        other => panic!("expected failure, got {:?}", other),
    }
    assert!(ares.is_none());
    // Only the first batch was ever registered or attempted.
    let (total, completed, _, _) = dl.reporter.snapshot();
    assert_eq!(total, 2);
    assert_eq!(completed, 2);
}

#[test]
fn successful_core_batch_is_followed_by_resources() {
    let mut dl = ClientDownloader::new(2, 2, ProgressReporter::new());
    let version = vec![artifact("core.jar", 5)];
    let assets = vec![artifact("r0", 1), artifact("r1", 1), artifact("r2", 1)];
    let (vres, ares) = dl.download_version(
        version,
        assets,
        &rows(1, 2, &[]),
        &rows(3, 2, &[]),
    );
    match vres {
        JobResult::Completed { verified, .. } => assert_eq!(verified, 1),
        other => panic!("expected completion, got {:?}", other),
    }
    match ares.expect("resource batch runs after a clean core batch") {
        JobResult::Completed { verified, failures } => {
            assert_eq!(verified, 3);
            assert!(failures.is_empty());
        },
        other => panic!("expected completion, got {:?}", other),
    }
    let (total, completed, _, _) = dl.reporter.snapshot();
    assert_eq!(total, 4);
    assert_eq!(completed, 4);
}

#[test]
fn completed_bytes_track_hints_and_cap_at_the_total() {
    let mut progress = ProgressReporter::new();
    progress.register_batch(2, 10);
    let mut job = DownloadJob::new("bytes")
        .concurrent_downloads(1)
        .max_download_attempts(1)
        .add_downloadables(vec![artifact("small", 4), artifact("huge", 100)]);
    let i = job.start_next().expect("start");
    job.complete_attempt(i, None, &mut progress);
    assert_eq!(progress.snapshot().3, 4);
    let i = job.start_next().expect("start");
    job.complete_attempt(i, None, &mut progress);
    // The second hint overshoots the registered estimate: capped.
    assert_eq!(progress.snapshot().3, 10);
    assert_eq!(progress.snapshot().1, 2);
}

#[test]
fn register_batch_saturates_its_byte_estimate() {
    let mut progress = ProgressReporter::new();
    progress.register_batch(1, u64::MAX - 5);
    progress.register_batch(1, 100);
    assert_eq!(progress.snapshot().2, u64::MAX);
}

#[test]
fn missing_index_reference_is_fatal() {
    match ClientDownloader::require_index_info(None) {
        Err(DownloadError::MissingPrerequisite) => {},
        other => panic!("expected a missing prerequisite, got {:?}", other),
    }
    let info = AssetIndexInfo {
        id: "19".to_string(),
        sha1: vec![0u8; 20],
        url: "https://example.invalid/indexes/19.json".to_string(),
    };
    assert!(ClientDownloader::require_index_info(Some(info)).is_ok());
}
