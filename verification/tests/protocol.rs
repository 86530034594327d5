use client_downloader::artifact::{FetchPlan, LocalFile, LocalProbe, plan_attempt, probe_local,
    verify_fetched};
use client_downloader::digest::{DigestAlgorithm, asset_object_path, compute_digest, digests_match,
    hex_encode};
use client_downloader::error::DownloadError;

fn hex_string(bytes: &Vec<u8>) -> String {
    String::from_utf8(hex_encode(bytes)).unwrap()
}

#[test]
fn sha1_digest_of_known_input() {
    let d = compute_digest(DigestAlgorithm::Sha1, b"abc");
    assert_eq!(hex_string(&d), "a9993e364706816aba3e25717850c26c9cd0d89d");
    assert_eq!(d.len(), 20);
}

#[test]
fn streamed_digest_equals_one_shot_digest() {
    let mut stream = client_downloader::digest::Sha1Stream::new();
    stream.update(b"ab");
    stream.update(b"");
    stream.update(b"c");
    let streamed = stream.finalize();
    assert_eq!(streamed, compute_digest(DigestAlgorithm::Sha1, b"abc"));
    assert_eq!(hex_string(&streamed), "a9993e364706816aba3e25717850c26c9cd0d89d");
}

#[test]
fn md5_digest_of_known_input() {
    let d = compute_digest(DigestAlgorithm::Md5, b"abc");
    assert_eq!(hex_string(&d), "900150983cd24fb0d6963f7d28e17f72");
    assert_eq!(d.len(), 16);
}

#[test]
fn digests_match_compares_bytes() {
    let a = vec![1u8, 2, 3];
    let b = vec![1u8, 2, 3];
    let c = vec![1u8, 2, 4];
    let short = vec![1u8, 2];
    assert!(digests_match(&a, &b));
    assert!(!digests_match(&a, &c));
    assert!(!digests_match(&a, &short));
}

#[test]
fn hex_encode_known_bytes() {
    assert_eq!(hex_encode(&vec![0x00u8, 0xff, 0x1a]), b"00ff1a".to_vec());
    assert_eq!(hex_encode(&Vec::new()), Vec::<u8>::new());
}

#[test]
fn asset_path_uses_two_digit_directory() {
    let p = asset_object_path(&vec![0xabu8, 0xcd]);
    assert_eq!(p, b"ab/abcd".to_vec());
}

#[test]
fn cache_hit_skips_network() {
    // A local file whose digest matches the expected digest: the
    // protocol must issue no request and leave the file alone.
    let contents = b"hello artifact".to_vec();
    let expected = compute_digest(DigestAlgorithm::Sha1, &contents);
    let local = LocalFile::Contents(contents);
    let probe = probe_local(DigestAlgorithm::Sha1, &local, &Some(expected.clone()));
    assert_eq!(probe, LocalProbe::Valid);
    let plan = plan_attempt(DigestAlgorithm::Sha1, &local, &Some(expected));
    assert_eq!(plan, FetchPlan::UseLocal);
}

#[test]
fn corruption_is_deleted_and_refetched() {
    // A corrupt local copy is staled (delete, then fetch), and the
    // freshly fetched bytes verify cleanly.
    let good = b"the real content".to_vec();
    let expected = compute_digest(DigestAlgorithm::Sha1, &good);
    let corrupt = LocalFile::Contents(b"tampered".to_vec());
    let probe = probe_local(DigestAlgorithm::Sha1, &corrupt, &Some(expected.clone()));
    assert_eq!(probe, LocalProbe::Stale);
    let plan = plan_attempt(DigestAlgorithm::Sha1, &corrupt, &Some(expected.clone()));
    assert_eq!(plan, FetchPlan::DeleteThenFetch);
    assert!(verify_fetched(DigestAlgorithm::Sha1, &good, &Some(expected)).is_ok());
}

#[test]
fn absent_file_is_fetched() {
    let expected = compute_digest(DigestAlgorithm::Sha1, b"x");
    let plan = plan_attempt(DigestAlgorithm::Sha1, &LocalFile::Missing, &Some(expected));
    assert_eq!(plan, FetchPlan::Fetch);
}

#[test]
fn unreadable_file_with_digest_is_stale() {
    let expected = compute_digest(DigestAlgorithm::Sha1, b"x");
    let probe = probe_local(DigestAlgorithm::Sha1, &LocalFile::Unreadable, &Some(expected));
    assert_eq!(probe, LocalProbe::Stale);
}

#[test]
fn missing_expected_digest_accepts_local_file() {
    let local = LocalFile::Contents(b"anything".to_vec());
    let probe = probe_local(DigestAlgorithm::Sha1, &local, &None);
    assert_eq!(probe, LocalProbe::Valid);
}

#[test]
fn checksum_mismatch_reports_both_digests() {
    let fetched = b"wrong bytes".to_vec();
    let expected = compute_digest(DigestAlgorithm::Sha1, b"right bytes");
    let actual = compute_digest(DigestAlgorithm::Sha1, &fetched);
    match verify_fetched(DigestAlgorithm::Sha1, &fetched, &Some(expected.clone())) {
        Err(DownloadError::ChecksumMismatch { expected: we, actual: wa }) => {
            assert_eq!(we, expected);
            assert_eq!(wa, actual);
        },
        other => panic!("expected a checksum mismatch, got {:?}", other),
    }
}

#[test]
fn verify_without_expected_digest_accepts_anything() {
    assert!(verify_fetched(DigestAlgorithm::Sha1, &b"whatever".to_vec(), &None).is_ok());
}

#[test]
fn retryability_follows_the_taxonomy() {
    assert!(DownloadError::NetworkFailure { status: Some(500) }.is_retryable());
    assert!(DownloadError::IoFailure.is_retryable());
    assert!(DownloadError::ChecksumMismatch { expected: vec![0], actual: vec![1] }.is_retryable());
    assert!(!DownloadError::ParseFailure.is_retryable());
    assert!(!DownloadError::MissingPrerequisite.is_retryable());
}
