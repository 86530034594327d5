use client_downloader::digest::{DigestAlgorithm, compute_digest};
use client_downloader::artifact::{FetchPlan, LocalFile};
use client_downloader::downloader::ClientDownloader;
use client_downloader::error::DownloadError;
use client_downloader::options::{GameOptionsBuilder, GameOptionsBuilderError, LauncherOptions,
    MCVersion, MinecraftResolution, ProxyOptions, UserAuthentication};
use client_downloader::progress::ProgressReporter;

fn base_builder() -> GameOptionsBuilder {
    GameOptionsBuilder::new()
        .version(MCVersion { id: "1.20.4".to_string() })
        .game_dir("game".to_string())
        .java_path("java".to_string())
        .authentication(UserAuthentication {
            username: "steve".to_string(),
            access_token: None,
        })
}

#[test]
fn resolution_accessors() {
    let r = MinecraftResolution::new(1280, 720);
    assert_eq!(r.width(), 1280);
    assert_eq!(r.height(), 720);
}

#[test]
fn launcher_options_keep_their_identity() {
    let o = LauncherOptions::new("mclauncher", "0.1.0");
    assert_eq!(o.launcher_name, "mclauncher");
    assert_eq!(o.launcher_version, "0.1.0");
}

#[test]
fn proxy_authority_and_credentials() {
    let p = ProxyOptions::Proxy {
        host: "proxy.local".to_string(),
        port: 8080,
        username: Some("u".to_string()),
        password: Some("hunter2".to_string()),
    };
    let (host, port) = p.proxy_authority().expect("authority");
    assert_eq!(host, "proxy.local");
    assert_eq!(port, 8080);
    let (user, pass) = p.proxy_credentials().expect("credentials");
    assert_eq!(user, "u");
    assert_eq!(pass, "hunter2");

    let anonymous = ProxyOptions::Proxy {
        host: "proxy.local".to_string(),
        port: 8080,
        username: Some("u".to_string()),
        password: None,
    };
    assert!(anonymous.proxy_credentials().is_none());
    assert!(ProxyOptions::default().proxy_authority().is_none());
}

#[test]
fn builder_fills_in_the_documented_defaults() {
    let opts = base_builder().build().expect("complete build");
    assert_eq!(opts.max_concurrent_downloads, 16);
    assert_eq!(opts.max_download_attempts, 5);
    assert!(matches!(opts.proxy, ProxyOptions::NoProxy));
    assert!(opts.resolution.is_none());
    assert!(opts.demo.is_none());
    assert!(opts.substitutor_overrides.is_empty());
}

#[test]
fn builder_reports_the_first_missing_required_field() {
    let err = GameOptionsBuilder::new().build().unwrap_err();
    assert_eq!(err, GameOptionsBuilderError::MissingVersion);
    let err = GameOptionsBuilder::new()
        .version(MCVersion { id: "1.20.4".to_string() })
        .build()
        .unwrap_err();
    assert_eq!(err, GameOptionsBuilderError::MissingGameDir);
}

#[test]
fn builder_accepts_a_shared_reporter() {
    let mut reporter = ProgressReporter::new();
    reporter.register_batch(2, 100);
    let opts = base_builder().progress_reporter_arc(&reporter).build().expect("build");
    assert_eq!(opts.progress_reporter.total_items, 2);
    assert_eq!(opts.progress_reporter.total_bytes, 100);
    let opts = base_builder().progress_reporter(ProgressReporter::new()).build().expect("build");
    assert_eq!(opts.progress_reporter.total_items, 0);
}

#[test]
fn env_features_follow_demo_and_resolution() {
    let plain = base_builder().build().expect("build");
    let f = plain.env_features();
    assert!(f.is_demo_user.is_none());
    assert!(f.has_custom_resolution.is_none());

    let fancy = base_builder()
        .demo(true)
        .resolution(MinecraftResolution::new(640, 480))
        .build()
        .expect("build");
    let f = fancy.env_features();
    assert_eq!(f.is_demo_user, Some(true));
    assert_eq!(f.has_custom_resolution, Some(true));
}

#[test]
fn index_resolution_keeps_a_valid_cache_and_heals_a_stale_one() {
    let body = b"{\"objects\":{}}".to_vec();
    let expected = compute_digest(DigestAlgorithm::Sha1, &body);
    let cached = LocalFile::Contents(body.clone());
    assert_eq!(
        ClientDownloader::plan_index_resolution(&cached, &expected),
        FetchPlan::UseLocal
    );
    let stale = LocalFile::Contents(b"{}".to_vec());
    assert_eq!(
        ClientDownloader::plan_index_resolution(&stale, &expected),
        FetchPlan::DeleteThenFetch
    );
    assert_eq!(
        ClientDownloader::plan_index_resolution(&LocalFile::Missing, &expected),
        FetchPlan::Fetch
    );
    assert!(ClientDownloader::verify_index_bytes(&body, &expected).is_ok());
    match ClientDownloader::verify_index_bytes(&b"other".to_vec(), &expected) {
        Err(DownloadError::ChecksumMismatch { expected: we, .. }) => assert_eq!(we, expected),
        other => panic!("expected a checksum mismatch, got {:?}", other),
    }
}
