use media_optimizer::config::Config;
use media_optimizer::events::JsonMessage;
use media_optimizer::ledger::ProcessedFile;
use media_optimizer::orchestrator::{
    aggregate_results, empty_run_report, final_report, find_common_base_dir, TaskResult,
};
use media_optimizer::paths::{DirPath, FilePath};
use media_optimizer::progress::{ProgressTracker, TaskOutcome};
use media_optimizer::stats::OptimizationStats;
use media_optimizer::video::VideoInfo;

fn dir(parts: &[&str]) -> DirPath {
    DirPath {
        comps: parts.iter().map(|p| p.to_string()).collect(),
    }
}

fn file(parts: &[&str], stem: &str, ext: Option<&str>) -> FilePath {
    FilePath {
        dir: dir(parts),
        stem: stem.to_string(),
        ext: ext.map(|e| e.to_string()),
    }
}

#[test]
fn test_stats_accumulation() {
    let mut stats = OptimizationStats::new();
    stats.add_optimized(1000, 600);
    stats.add_optimized(500, 700);
    stats.add_skipped(200);
    stats.add_error();
    assert_eq!(stats.files_processed, 4);
    assert_eq!(stats.files_optimized, 2);
    assert_eq!(stats.files_skipped, 1);
    assert_eq!(stats.errors, 1);
    assert_eq!(stats.total_original_size, 1700);
    assert_eq!(stats.total_bytes_saved, 400);
}

#[test]
fn test_overall_reduction() {
    let mut stats = OptimizationStats::new();
    assert_eq!(stats.overall_reduction_permille(), 0);
    stats.add_optimized(1000, 750);
    assert_eq!(stats.overall_reduction_permille(), 250);
}

#[test]
fn test_format_summary() {
    let mut stats = OptimizationStats::new();
    stats.add_optimized(2048, 1024);
    stats.add_skipped(100);
    assert_eq!(
        stats.format_summary(),
        "Processed: 2 files | Optimized: 1 | Skipped: 1 | Errors: 0 | Total saved: 1.00 KB (47.67%)"
    );
}

#[test]
fn test_progress_event_percentage() {
    let mut t = ProgressTracker::new(4);
    t.increment_current();
    match t.progress_event() {
        JsonMessage::Progress {
            current,
            total,
            percentage_permille,
            ..
        } => {
            assert_eq!(current, 1);
            assert_eq!(total, 4);
            assert_eq!(percentage_permille, 250);
        }
        other => panic!("expected a progress event, got {:?}", other),
    }
}

#[test]
fn test_completion_optimized() {
    let mut t = ProgressTracker::new(3);
    let mut config = Config::default();
    config.json_output = true;
    let record = ProcessedFile::new("/m/a.jpg".to_string(), 1, 1000, 750, 2);
    let out = t.handle_file_completion(&config, "a.jpg", &TaskOutcome::Completed(record));
    assert_eq!(t.current_file, 1);
    assert_eq!(t.files_optimized, 1);
    assert_eq!(t.bytes_saved, 250);
    assert_eq!(out.message, "[OK] a.jpg: 25.0% saved");
    assert_eq!(out.events.len(), 2);
    match &out.events[0] {
        JsonMessage::FileComplete {
            path,
            original_size,
            optimized_size,
            reduction_permille,
            skipped,
            error,
        } => {
            assert_eq!(path, "/m/a.jpg");
            assert_eq!(*original_size, 1000);
            assert_eq!(*optimized_size, 750);
            assert_eq!(*reduction_permille, 250);
            assert!(!*skipped);
            assert!(error.is_none());
        }
        other => panic!("expected a file_complete event, got {:?}", other),
    }
}

#[test]
fn test_completion_skipped_and_failed() {
    let mut t = ProgressTracker::new(3);
    let config = Config::default();

    let out = t.handle_file_completion(&config, "b.jpg", &TaskOutcome::Skipped(None));
    assert_eq!(t.files_skipped, 1);
    assert_eq!(out.message, "[SKIP] b.jpg: skipped");
    assert_eq!(out.events.len(), 0);

    let out = t.handle_file_completion(
        &config,
        "c.jpg",
        &TaskOutcome::Failed(None, "boom".to_string()),
    );
    assert_eq!(t.errors, 1);
    assert_eq!(out.message, "[ERROR] c.jpg: error");

    let unimproved = ProcessedFile::new("/m/d.jpg".to_string(), 1, 500, 500, 2);
    let out = t.handle_file_completion(&config, "d.jpg", &TaskOutcome::Completed(unimproved));
    assert_eq!(t.files_skipped, 2);
    assert_eq!(out.message, "[SKIP] d.jpg: No optimization needed");
}

#[test]
fn test_tracker_stats() {
    let mut t = ProgressTracker::new(5);
    let config = Config::default();
    t.handle_file_completion(
        &config,
        "a",
        &TaskOutcome::Completed(ProcessedFile::new("/a".to_string(), 1, 100, 40, 2)),
    );
    t.handle_file_completion(&config, "b", &TaskOutcome::Skipped(None));
    let stats = t.get_stats();
    assert_eq!(stats.files_processed, 2);
    assert_eq!(stats.files_optimized, 1);
    assert_eq!(stats.files_skipped, 1);
    assert_eq!(stats.total_bytes_saved, 60);
}

#[test]
fn test_aggregate_results() {
    let results = vec![
        TaskResult::Completed {
            original_size: 1000,
            optimized_size: 400,
        },
        TaskResult::Skipped,
        TaskResult::Failed,
        TaskResult::Completed {
            original_size: 500,
            optimized_size: 500,
        },
    ];
    let stats = aggregate_results(&results);
    assert_eq!(stats.files_processed, 4);
    assert_eq!(stats.files_optimized, 2);
    assert_eq!(stats.files_skipped, 1);
    assert_eq!(stats.errors, 1);
    assert_eq!(stats.total_original_size, 1500);
    assert_eq!(stats.total_bytes_saved, 600);
}

#[test]
fn test_final_and_empty_reports() {
    let mut stats = OptimizationStats::new();
    stats.add_optimized(1000, 500);
    match final_report(&stats, 2500, 7, 12345, 420) {
        JsonMessage::Complete {
            files_processed,
            files_optimized,
            total_bytes_saved,
            average_reduction_permille,
            duration_ms,
            historical_stats,
            ..
        } => {
            assert_eq!(files_processed, 1);
            assert_eq!(files_optimized, 1);
            assert_eq!(total_bytes_saved, 500);
            assert_eq!(average_reduction_permille, 500);
            assert_eq!(duration_ms, 2500);
            assert_eq!(historical_stats.total_files_ever_processed, 7);
            assert_eq!(historical_stats.total_bytes_saved_historically, 12345);
            assert_eq!(historical_stats.average_historical_reduction_permille, 420);
        }
        other => panic!("expected a complete event, got {:?}", other),
    }
    match empty_run_report(10) {
        JsonMessage::Complete {
            files_processed,
            duration_ms,
            ..
        } => {
            assert_eq!(files_processed, 0);
            assert_eq!(duration_ms, 10);
        }
        other => panic!("expected a complete event, got {:?}", other),
    }
}

#[test]
fn test_start_and_error_events() {
    match JsonMessage::error("bad".to_string(), Some("details".to_string())) {
        JsonMessage::Error { message, details } => {
            assert_eq!(message, "bad");
            assert_eq!(details.as_deref(), Some("details"));
        }
        other => panic!("expected an error event, got {:?}", other),
    }
    match JsonMessage::file_start("/m/a.jpg".to_string(), 100, 0, 3) {
        JsonMessage::FileStart {
            path,
            size,
            index,
            total,
        } => {
            assert_eq!(path, "/m/a.jpg");
            assert_eq!(size, 100);
            assert_eq!(index, 0);
            assert_eq!(total, 3);
        }
        other => panic!("expected a file_start event, got {:?}", other),
    }
}

#[test]
fn test_common_base_dir() {
    let files = vec![
        file(&["media", "x", "a"], "1", Some("jpg")),
        file(&["media", "x", "b"], "2", Some("jpg")),
        file(&["media", "y"], "3", Some("jpg")),
    ];
    let base = find_common_base_dir(&files).unwrap();
    assert_eq!(base.comps, vec!["media".to_string()]);

    let none: Vec<FilePath> = Vec::new();
    assert!(find_common_base_dir(&none).is_none());

    let single = vec![file(&["media", "x"], "1", Some("jpg"))];
    let base = find_common_base_dir(&single).unwrap();
    assert_eq!(base.comps, vec!["media".to_string(), "x".to_string()]);

    let disjoint = vec![
        file(&["a"], "1", Some("jpg")),
        file(&["b"], "2", Some("jpg")),
    ];
    let base = find_common_base_dir(&disjoint).unwrap();
    assert!(base.comps.is_empty());
}

#[test]
fn test_video_info_parsing() {
    let info = VideoInfo::from_probe_fields("123.456", "2000000", 1920, 1080, "h264".to_string());
    assert_eq!(info.duration_secs, 123);
    assert_eq!(info.bitrate, 2000000);
    assert_eq!(info.width, 1920);
    assert_eq!(info.height, 1080);
    assert_eq!(info.codec, "h264");

    let bad = VideoInfo::from_probe_fields("oops", "n/a", 0, 0, "unknown".to_string());
    assert_eq!(bad.duration_secs, 0);
    assert_eq!(bad.bitrate, 0);
}

#[test]
fn test_video_info_decisions() {
    let info = VideoInfo::from_probe_fields("60", "2000000", 1920, 1080, "h264".to_string());
    assert!(info.needs_optimization(1500000));
    assert!(!info.needs_optimization(2000000));
    assert_eq!(info.estimate_compressed_size(1500000), 1500000 * 60 / 8);
}

#[test]
fn test_video_info_rendering() {
    let info = VideoInfo::from_probe_fields("5025", "2500000", 1920, 1080, "h264".to_string());
    assert_eq!(info.resolution_string(), "1920x1080");
    assert_eq!(info.duration_string(), "1:23:45");
    assert_eq!(info.bitrate_string(), "2.5 Mbps");

    let short = VideoInfo::from_probe_fields("65", "1500", 640, 480, "vp9".to_string());
    assert_eq!(short.duration_string(), "1:05");
    assert_eq!(short.bitrate_string(), "1 kbps");

    let tiny = VideoInfo::from_probe_fields("9", "900", 10, 10, "raw".to_string());
    assert_eq!(tiny.duration_string(), "0:09");
    assert_eq!(tiny.bitrate_string(), "900 bps");
}
