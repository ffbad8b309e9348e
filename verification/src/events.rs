//! The structured event protocol: one tagged message per line for a
//! parent process. Ratios are carried in thousandths and durations in
//! milliseconds so that every field is integral; the process boundary
//! renders them as it sees fit. Serialization itself happens outside this
//! crate; these are the payloads.

use vstd::prelude::*;

use crate::config::JsonConfig;
use crate::ledger::ProcessedFile;

verus! {

/// The lifetime statistics echoed in the final `complete` event.
#[derive(Debug)]
pub struct HistoricalStats {
    pub total_files_ever_processed: usize,
    pub total_bytes_saved_historically: u64,
    /// Average recorded reduction over all time, in thousandths.
    pub average_historical_reduction_permille: u64,
}

/// One line of the event stream, tagged by variant.
#[derive(Debug)]
pub enum JsonMessage {
    /// The run begins.
    Start { input_dir: String, output_dir: Option<String>, total_files: usize, config: JsonConfig },
    /// Aggregate progress after a completion.
    Progress {
        current: usize,
        total: usize,
        /// `current * 1000 / total`; zero when the run is empty.
        percentage_permille: u64,
        files_optimized: usize,
        files_skipped: usize,
        errors: usize,
        bytes_saved: u64,
    },
    /// One file's processing begins.
    FileStart { path: String, size: u64, index: usize, total: usize },
    /// One file settled.
    FileComplete {
        path: String,
        original_size: u64,
        optimized_size: u64,
        reduction_permille: u64,
        skipped: bool,
        error: Option<String>,
    },
    /// The run is over.
    Complete {
        files_processed: usize,
        files_optimized: usize,
        files_skipped: usize,
        errors: usize,
        total_bytes_saved: u64,
        average_reduction_permille: u64,
        duration_ms: u64,
        historical_stats: HistoricalStats,
    },
    /// A run-level failure.
    Error { message: String, details: Option<String> },
}

/// The completed share of the run, in thousandths.
pub open spec fn percentage_permille_spec(current: nat, total: nat) -> int {
    if total == 0 {
        0
    } else {
        (current as int) * 1000 / (total as int)
    }
}

impl JsonMessage {
    /// The `start` event.
    pub fn start(
        input_dir: String,
        output_dir: Option<String>,
        total_files: usize,
        config: JsonConfig,
    ) -> (r: JsonMessage)
        ensures
            r == (JsonMessage::Start { input_dir, output_dir, total_files, config }),
    {
        JsonMessage::Start { input_dir, output_dir, total_files, config }
    }

    /// The `progress` event, with the percentage derived from the two
    /// counters.
    pub fn progress(
        current: usize,
        total: usize,
        files_optimized: usize,
        files_skipped: usize,
        errors: usize,
        bytes_saved: u64,
    ) -> (r: JsonMessage)
        requires
            current <= total,
        ensures
            r == (JsonMessage::Progress {
                current,
                total,
                percentage_permille: percentage_permille_spec(current as nat, total as nat) as u64,
                files_optimized,
                files_skipped,
                errors,
                bytes_saved,
            }),
    {
        let percentage_permille: u64 = if total == 0 {
            0
        } else {
            let scaled: u128 = (current as u128) * 1000;
            let p = scaled / (total as u128);
            proof {
                assert(p <= 1000) by (nonlinear_arith)
                    requires
                        p == scaled as int / (total as int),
                        scaled == (current as int) * 1000,
                        0 < total,
                        current <= total,
                ;
            }
            p as u64
        };
        JsonMessage::Progress {
            current,
            total,
            percentage_permille,
            files_optimized,
            files_skipped,
            errors,
            bytes_saved,
        }
    }

    /// The `file_start` event.
    pub fn file_start(path: String, size: u64, index: usize, total: usize) -> (r: JsonMessage)
        ensures
            r == (JsonMessage::FileStart { path, size, index, total }),
    {
        JsonMessage::FileStart { path, size, index, total }
    }

    /// The `file_complete` event for a settled record.
    pub fn file_complete(processed_file: &ProcessedFile, skipped: bool, error: Option<String>) -> (r:
        JsonMessage)
        ensures
            r == (JsonMessage::FileComplete {
                path: processed_file.path,
                original_size: processed_file.original_size,
                optimized_size: processed_file.optimized_size,
                reduction_permille: processed_file.reduction_permille,
                skipped,
                error,
            }),
    {
        JsonMessage::FileComplete {
            path: processed_file.path.clone(),
            original_size: processed_file.original_size,
            optimized_size: processed_file.optimized_size,
            reduction_permille: processed_file.reduction_permille,
            skipped,
            error,
        }
    }

    /// The `complete` event.
    pub fn complete(
        files_processed: usize,
        files_optimized: usize,
        files_skipped: usize,
        errors: usize,
        total_bytes_saved: u64,
        average_reduction_permille: u64,
        duration_ms: u64,
        historical_stats: HistoricalStats,
    ) -> (r: JsonMessage)
        ensures
            r == (JsonMessage::Complete {
                files_processed,
                files_optimized,
                files_skipped,
                errors,
                total_bytes_saved,
                average_reduction_permille,
                duration_ms,
                historical_stats,
            }),
    {
        JsonMessage::Complete {
            files_processed,
            files_optimized,
            files_skipped,
            errors,
            total_bytes_saved,
            average_reduction_permille,
            duration_ms,
            historical_stats,
        }
    }

    /// The `error` event.
    pub fn error(message: String, details: Option<String>) -> (r: JsonMessage)
        ensures
            r == (JsonMessage::Error { message, details }),
    {
        JsonMessage::Error { message, details }
    }
}

} // verus!
