use media_optimizer::config::Config;
use media_optimizer::error::OptimizeError;
use media_optimizer::file_manager::FileManager;
use media_optimizer::ledger::{ledger_file_name, ProcessedFile, StateManager};
use media_optimizer::paths::{DirPath, FilePath};
use media_optimizer::pipeline::{
    decide_commit, route_media, should_replace, should_skip_file, should_stop,
    CancellationSignal, CommitAction, MediaKind,
};
use media_optimizer::resolver::PathResolver;
use media_optimizer::scheduler::{ConcurrencyClass, FileSize, PermitGrant, SchedulerState};

fn dir(parts: &[&str]) -> DirPath {
    DirPath {
        comps: parts.iter().map(|p| p.to_string()).collect(),
    }
}

fn file(parts: &[&str], stem: &str, ext: Option<&str>) -> FilePath {
    FilePath {
        dir: dir(parts),
        stem: stem.to_string(),
        ext: ext.map(|e| e.to_string()),
    }
}

#[test]
fn test_file_kind_classification() {
    assert!(FileManager::is_image(&file(&["media"], "a", Some("jpg"))));
    assert!(FileManager::is_image(&file(&["media"], "a", Some("JPG"))));
    assert!(FileManager::is_image(&file(&["media"], "a", Some("webp"))));
    assert!(!FileManager::is_image(&file(&["media"], "a", Some("mp4"))));
    assert!(FileManager::is_video(&file(&["media"], "a", Some("mkv"))));
    assert!(FileManager::is_video(&file(&["media"], "a", Some("MOV"))));
    assert!(!FileManager::is_video(&file(&["media"], "a", None)));
    assert!(FileManager::is_supported_format(&file(
        &["media"],
        "a",
        Some("webm")
    )));
    assert!(!FileManager::is_supported_format(&file(
        &["media"],
        "a",
        Some("txt")
    )));
}

#[test]
fn test_route_media() {
    assert_eq!(
        route_media(&file(&[], "a", Some("png"))).unwrap(),
        MediaKind::Image
    );
    assert_eq!(
        route_media(&file(&[], "a", Some("avi"))).unwrap(),
        MediaKind::Video
    );
    match route_media(&file(&[], "a", Some("txt"))) {
        Err(OptimizeError::UnsupportedFormat(m)) => assert_eq!(m, "Unsupported file type"),
        other => panic!("expected an unsupported-format error, got {:?}", other),
    }
}

#[test]
fn test_format_size() {
    assert_eq!(FileManager::format_size(512), "512 B");
    assert_eq!(FileManager::format_size(1536), "1.50 KB");
    assert_eq!(FileManager::format_size(2 * 1024 * 1024), "2.00 MB");
    assert_eq!(FileManager::format_size(3 * 1024 * 1024 * 1024), "3.00 GB");
    assert_eq!(FileManager::format_size(1099511627776), "1.00 TB");
    assert_eq!(FileManager::format_size(1024), "1.00 KB");
    assert_eq!(FileManager::format_size(0), "0 B");
}

#[test]
fn test_calculate_reduction() {
    assert_eq!(FileManager::calculate_reduction(1000, 750), 250);
    assert_eq!(FileManager::calculate_reduction(0, 5), 0);
    assert_eq!(FileManager::calculate_reduction(100, 150), 0);
    assert_eq!(FileManager::calculate_reduction(100, 100), 0);
}

// Threshold law: replaced exactly when optimized < original * threshold,
// and the boundary case does not replace.
#[test]
fn test_threshold_law_boundary() {
    assert!(should_replace(899, 1000, 900));
    assert!(!should_replace(900, 1000, 900));
    assert!(!should_replace(901, 1000, 900));
    assert!(!should_replace(0, 0, 900));
}

// Scenario: a 2 MiB input whose encoder returns 1.5 MiB at threshold 0.9
// is replaced, with a reduction of 25%.
#[test]
fn test_scenario_kept_optimization() {
    let original: u64 = 2 * 1024 * 1024;
    let optimized: u64 = 1572864;
    let config = Config::default();
    assert!(should_replace(optimized, original, config.size_threshold_permille));
    let d = decide_commit(
        &config,
        "/media/a.jpg".to_string(),
        1000,
        original,
        optimized,
        2000,
    );
    assert_eq!(d.action, CommitAction::ReplaceOriginal);
    assert!(d.update_ledger);
    assert_eq!(d.record.original_size, original);
    assert_eq!(d.record.optimized_size, optimized);
    assert_eq!(d.record.reduction_permille, 250);
}

// Scenario: the same file whose encoder returns about 1.9 MiB misses the
// threshold; in place the original is untouched but a record is still
// made, and output-directory mode copies the original bytes instead.
#[test]
fn test_scenario_insufficient_optimization() {
    let original: u64 = 2 * 1024 * 1024;
    let optimized: u64 = 1992294;
    let config = Config::default();
    assert!(!should_replace(optimized, original, config.size_threshold_permille));
    let d = decide_commit(
        &config,
        "/media/a.jpg".to_string(),
        1000,
        original,
        optimized,
        2000,
    );
    assert_eq!(d.action, CommitAction::RemoveTemp);
    assert!(d.update_ledger);
    assert_eq!(d.record.original_size, original);
    assert_eq!(d.record.optimized_size, original);
    assert_eq!(d.record.reduction_permille, 0);

    let mut out_config = Config::default();
    out_config.output_path = Some(dir(&["out"]));
    let d = decide_commit(
        &out_config,
        "/media/a.jpg".to_string(),
        1000,
        original,
        optimized,
        2000,
    );
    assert_eq!(d.action, CommitAction::CopyOriginalToOutput);
    assert!(!d.update_ledger);
}

// Dry-run safety: the records match a real run's, and the only action is
// cleaning up the temporary file.
#[test]
fn test_dry_run_matches_real_run() {
    let mut dry = Config::default();
    dry.dry_run = true;
    let real = Config::default();
    for &(orig, opt) in &[(1000u64, 500u64), (1000, 950), (1000, 1000)] {
        let d1 = decide_commit(&dry, "/m/a.jpg".to_string(), 1, orig, opt, 2);
        let d2 = decide_commit(&real, "/m/a.jpg".to_string(), 1, orig, opt, 2);
        assert_eq!(d1.record.original_size, d2.record.original_size);
        assert_eq!(d1.record.optimized_size, d2.record.optimized_size);
        assert_eq!(d1.record.reduction_permille, d2.record.reduction_permille);
        assert_eq!(d1.action, CommitAction::RemoveTemp);
    }
}

// Idempotency by the ledger: a file recorded at modification time T is
// skipped on the next in-place run while its time is still T.
#[test]
fn test_recorded_file_is_skipped() {
    let mut mgr = StateManager::new("/media", Vec::new());
    assert!(!mgr.is_processed("/media/a.jpg", 100));
    mgr.mark_processed(ProcessedFile::new(
        "/media/a.jpg".to_string(),
        100,
        1000,
        800,
        5000,
    ));
    assert!(mgr.is_processed("/media/a.jpg", 100));
    assert!(!mgr.is_processed("/media/a.jpg", 101));
    assert!(!mgr.is_processed("/media/a.jpg", 99));
    assert!(!mgr.is_processed("/media/b.jpg", 100));

    let config = Config::default();
    assert!(should_skip_file(&config, &mgr, "/media/a.jpg", 100, false));
    assert!(!should_skip_file(&config, &mgr, "/media/a.jpg", 101, false));
}

// Idempotency by existence: output mode with keep-existing skips exactly
// the files whose output is already present.
#[test]
fn test_existing_output_is_skipped() {
    let mgr = StateManager::new("/media", Vec::new());
    let mut config = Config::default();
    config.output_path = Some(dir(&["out"]));
    config.keep_processed = true;
    assert!(should_skip_file(&config, &mgr, "/media/a.jpg", 1, true));
    assert!(!should_skip_file(&config, &mgr, "/media/a.jpg", 1, false));

    config.keep_processed = false;
    assert!(!should_skip_file(&config, &mgr, "/media/a.jpg", 1, true));
}

#[test]
fn test_ledger_upsert_and_stats() {
    let mut mgr = StateManager::new("/media", Vec::new());
    mgr.mark_processed(ProcessedFile::new("/m/a".to_string(), 1, 1000, 600, 10));
    mgr.mark_processed(ProcessedFile::new("/m/b".to_string(), 2, 2000, 1000, 11));
    mgr.mark_processed(ProcessedFile::new("/m/a".to_string(), 3, 1000, 900, 12));
    let (count, saved, avg) = mgr.get_stats();
    assert_eq!(count, 2);
    // a saved 100 after the overwrite, b saved 1000
    assert_eq!(saved, 1100);
    // reductions: a 10%, b 50% -> average 30%
    assert_eq!(avg, 300);
}

#[test]
fn test_ledger_cleanup() {
    let mut mgr = StateManager::new("/media", Vec::new());
    mgr.mark_processed(ProcessedFile::new("/m/a".to_string(), 1, 100, 50, 10));
    mgr.mark_processed(ProcessedFile::new("/m/b".to_string(), 2, 100, 50, 11));
    mgr.mark_processed(ProcessedFile::new("/m/c".to_string(), 3, 100, 50, 12));
    let removed = mgr.cleanup(&vec![true, false, true]);
    assert_eq!(removed, 1);
    assert!(mgr.is_processed("/m/a", 1));
    assert!(!mgr.is_processed("/m/b", 2));
    assert!(mgr.is_processed("/m/c", 3));
}

// Ledger files never collide across distinct roots (their hash-derived
// names differ), and the same root always maps to the same file.
#[test]
fn test_ledger_file_names() {
    let n1 = ledger_file_name("/media/photos");
    let n2 = ledger_file_name("/media/videos");
    let n3 = ledger_file_name("/media/photos");
    assert_eq!(n1, n3);
    assert_ne!(n1, n2);
    assert!(n1.starts_with("processed_files_"));
    assert!(n1.ends_with(".json"));
    assert_eq!(n1.len(), "processed_files_".len() + 16 + ".json".len());
    let hex_part = &n1["processed_files_".len()..n1.len() - ".json".len()];
    assert!(hex_part.chars().all(|c| c.is_ascii_hexdigit()));
    // The name embeds the real digest of the root, not some echo of it.
    assert_eq!(n1, "processed_files_3ab6130d037a2d80.json");
}

// Scenario: output root /out, input root /media, file /media/x/y.png
// resolves to /out/x/y.png, or /out/x/y.webp under format conversion.
#[test]
fn test_resolver_output_tree() {
    let input = file(&["media", "x"], "y", Some("png"));
    let base = dir(&["media"]);
    let mut config = Config::default();
    config.output_path = Some(dir(&["out"]));

    let out = PathResolver::get_output_path(&input, &base, &config);
    assert_eq!(out.dir.comps, vec!["out".to_string(), "x".to_string()]);
    assert_eq!(out.stem, "y");
    assert_eq!(out.ext.as_deref(), Some("png"));

    config.convert_to_webp = true;
    let out = PathResolver::get_output_path(&input, &base, &config);
    assert_eq!(out.dir.comps, vec!["out".to_string(), "x".to_string()]);
    assert_eq!(out.ext.as_deref(), Some("webp"));
}

// Scenario: a file that cannot be expressed relative to the input root
// still resolves deterministically under its immediate parent's name.
#[test]
fn test_resolver_escaping_input() {
    let input = file(&["elsewhere", "x"], "y", Some("jpg"));
    let base = dir(&["media"]);
    let mut config = Config::default();
    config.output_path = Some(dir(&["out"]));
    let out = PathResolver::get_output_path(&input, &base, &config);
    assert_eq!(out.dir.comps, vec!["out".to_string(), "x".to_string()]);
    assert_eq!(out.stem, "y");
    assert_eq!(out.ext.as_deref(), Some("jpg"));
}

#[test]
fn test_resolver_in_place_and_video() {
    let input = file(&["media", "x"], "y", Some("MOV"));
    let base = dir(&["media"]);
    let config = Config::default();
    let out = PathResolver::get_output_path(&input, &base, &config);
    assert_eq!(out.dir.comps, vec!["media".to_string(), "x".to_string()]);
    assert_eq!(out.ext.as_deref(), Some("mp4"));

    let no_ext = file(&["media"], "raw", None);
    let out = PathResolver::get_output_path(&no_ext, &base, &config);
    assert_eq!(out.ext.as_deref(), Some("jpg"));
}

// A lagging or missed cancellation signal is treated conservatively as
// "stop"; a closed channel is not.
#[test]
fn test_cancellation_checkpoints() {
    assert!(should_stop(CancellationSignal::Received));
    assert!(should_stop(CancellationSignal::Lagged));
    assert!(!should_stop(CancellationSignal::Empty));
    assert!(!should_stop(CancellationSignal::Closed));
}

#[test]
fn test_size_classification() {
    assert_eq!(FileSize::classify(4 * 1024 * 1024), FileSize::Small);
    assert_eq!(FileSize::classify(5 * 1024 * 1024), FileSize::Medium);
    assert_eq!(FileSize::classify(10 * 1024 * 1024), FileSize::Medium);
    assert_eq!(FileSize::classify(20 * 1024 * 1024), FileSize::Large);
    assert_eq!(FileSize::classify(0), FileSize::Small);
    assert_eq!(FileSize::Small.max_concurrent(8), 8);
    assert_eq!(FileSize::Medium.max_concurrent(8), 4);
    assert_eq!(FileSize::Medium.max_concurrent(1), 1);
    assert_eq!(FileSize::Large.max_concurrent(8), 1);
    assert_eq!(FileSize::Small.description(), "small (<5MB)");
    let video = file(&[], "v", Some("mp4"));
    assert_eq!(
        ConcurrencyClass::for_file(&video, 1),
        ConcurrencyClass::Video
    );
    let image = file(&[], "i", Some("jpg"));
    assert_eq!(
        ConcurrencyClass::for_file(&image, 30 * 1024 * 1024),
        ConcurrencyClass::Large
    );
}

#[test]
fn test_class_timeouts() {
    let config = Config::default();
    assert_eq!(ConcurrencyClass::Small.timeout_secs(&config), 120);
    assert_eq!(ConcurrencyClass::Medium.timeout_secs(&config), 300);
    assert_eq!(ConcurrencyClass::Large.timeout_secs(&config), 1200);
    assert_eq!(ConcurrencyClass::Video.timeout_secs(&config), 900);
}

// Concurrency class invariant: a second large or video acquisition is
// refused while the first grant is outstanding.
#[test]
fn test_scheduler_exclusive_classes() {
    let mut s = SchedulerState::new(4);
    let large = s.try_acquire(ConcurrencyClass::Large);
    match large {
        Some(PermitGrant::Large { drained }) => assert_eq!(drained, 4),
        other => panic!("expected a large grant, got {:?}", other),
    }
    assert!(s.try_acquire(ConcurrencyClass::Large).is_none());
    assert_eq!(s.global_available, 0);

    let video = s.try_acquire(ConcurrencyClass::Video);
    assert!(matches!(video, Some(PermitGrant::Video)));
    assert!(s.try_acquire(ConcurrencyClass::Video).is_none());

    s.release(large.unwrap());
    assert_eq!(s.global_available, 4);
    assert!(s.try_acquire(ConcurrencyClass::Large).is_some());
}

#[test]
fn test_scheduler_class_bounds() {
    let mut s = SchedulerState::new(2);
    assert!(s.try_acquire(ConcurrencyClass::Small).is_some());
    assert!(s.try_acquire(ConcurrencyClass::Small).is_some());
    assert!(s.try_acquire(ConcurrencyClass::Small).is_none());
    assert!(s.try_acquire(ConcurrencyClass::Medium).is_some());
    assert!(s.try_acquire(ConcurrencyClass::Medium).is_none());
    s.release(PermitGrant::Small);
    assert!(s.try_acquire(ConcurrencyClass::Small).is_some());
}
