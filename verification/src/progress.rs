//! Run-wide progress: counters mutated once per settled task, the
//! structured events derived from them, and the one-line text shown on
//! the interactive progress display. The display itself, and the mutual
//! exclusion around concurrent completions, live outside this crate; the
//! logic of what a completion does is all here.

use vstd::prelude::*;

use crate::config::Config;
use crate::events::{percentage_permille_spec, JsonMessage};
use crate::ledger::ProcessedFile;
use crate::stats::{sat_add_u64, OptimizationStats};
use crate::text::{dec_digit, dec_str, u64_to_string};

verus! {

/// How one task settled, as reported to the tracker. The `Skipped` and
/// `Failed` records are synthesized from the file's metadata for the
/// event stream and may be absent when that metadata could not be read.
#[derive(Debug)]
pub enum TaskOutcome {
    /// The pipeline produced a record (kept or recorded-as-unimproved).
    Completed(ProcessedFile),
    /// The skip check ended the pipeline before any work.
    Skipped(Option<ProcessedFile>),
    /// The task failed; the message is the error's rendering.
    Failed(Option<ProcessedFile>, String),
}

/// Whether a completed record reads as "skipped": nothing was saved, the
/// recorded sizes are equal.
pub open spec fn record_reads_skipped(p: &ProcessedFile) -> bool {
    p.original_size == p.optimized_size
}

/// The line shown on the progress display for one settled file.
pub open spec fn completion_message_chars(outcome: &TaskOutcome, name: Seq<char>) -> Seq<char> {
    match outcome {
        TaskOutcome::Completed(p) => {
            if record_reads_skipped(p) {
                "[SKIP] "@ + name + ": No optimization needed"@
            } else {
                "[OK] "@ + name + ": "@ + dec_str((p.reduction_permille / 10) as nat) + "."@
                    + seq![dec_digit((p.reduction_permille % 10) as int)] + "% saved"@
            }
        },
        TaskOutcome::Skipped(_) => "[SKIP] "@ + name + ": skipped"@,
        TaskOutcome::Failed(_, _) => "[ERROR] "@ + name + ": error"@,
    }
}

/// Everything one completion hands back to the surrounding process: the
/// events to emit (in order) and the display line.
#[derive(Debug)]
pub struct CompletionOutput {
    pub events: Vec<JsonMessage>,
    pub message: String,
}

/// The outcome counters account for every settled task: as many tasks
/// have settled as were counted optimized, skipped or failed.
pub open spec fn counters_consistent(t: &ProgressTracker) -> bool {
    t.current_file == t.files_optimized + t.files_skipped + t.errors
}

/// The run's shared counters. One tracker per run; completions mutate it
/// under the caller's mutual exclusion.
#[derive(Debug)]
pub struct ProgressTracker {
    pub total_files: usize,
    pub current_file: usize,
    pub files_optimized: usize,
    pub files_skipped: usize,
    pub errors: usize,
    pub bytes_saved: u64,
}

impl ProgressTracker {
    /// Counters at zero for a run over `total_files` files.
    pub fn new(total_files: usize) -> (r: ProgressTracker)
        ensures
            r.total_files == total_files,
            r.current_file == 0,
            r.files_optimized == 0,
            r.files_skipped == 0,
            r.errors == 0,
            r.bytes_saved == 0,
    {
        ProgressTracker {
            total_files,
            current_file: 0,
            files_optimized: 0,
            files_skipped: 0,
            errors: 0,
            bytes_saved: 0,
        }
    }

    /// One more task has settled.
    pub fn increment_current(&mut self)
        requires
            old(self).current_file < usize::MAX,
        ensures
            *final(self) == (ProgressTracker {
                current_file: (old(self).current_file + 1) as usize,
                ..*old(self)
            }),
    {
        self.current_file = self.current_file + 1;
    }

    /// One more file was optimized, saving `bytes_saved` bytes.
    pub fn add_optimized(&mut self, bytes_saved: u64)
        requires
            old(self).files_optimized < usize::MAX,
        ensures
            *final(self) == (ProgressTracker {
                files_optimized: (old(self).files_optimized + 1) as usize,
                bytes_saved: sat_add_u64(old(self).bytes_saved as int, bytes_saved as int) as u64,
                ..*old(self)
            }),
    {
        self.files_optimized = self.files_optimized + 1;
        self.bytes_saved = if self.bytes_saved > u64::MAX - bytes_saved {
            u64::MAX
        } else {
            self.bytes_saved + bytes_saved
        };
    }

    /// One more file was skipped.
    pub fn add_skipped(&mut self)
        requires
            old(self).files_skipped < usize::MAX,
        ensures
            *final(self) == (ProgressTracker {
                files_skipped: (old(self).files_skipped + 1) as usize,
                ..*old(self)
            }),
    {
        self.files_skipped = self.files_skipped + 1;
    }

    /// One more file failed.
    pub fn add_error(&mut self)
        requires
            old(self).errors < usize::MAX,
        ensures
            *final(self) == (ProgressTracker {
                errors: (old(self).errors + 1) as usize,
                ..*old(self)
            }),
    {
        self.errors = self.errors + 1;
    }

    /// The `progress` event for the current counters.
    pub fn progress_event(&self) -> (r: JsonMessage)
        requires
            self.current_file <= self.total_files,
        ensures
            r == (JsonMessage::Progress {
                current: self.current_file,
                total: self.total_files,
                percentage_permille: percentage_permille_spec(
                    self.current_file as nat,
                    self.total_files as nat,
                ) as u64,
                files_optimized: self.files_optimized,
                files_skipped: self.files_skipped,
                errors: self.errors,
                bytes_saved: self.bytes_saved,
            }),
    {
        JsonMessage::progress(
            self.current_file,
            self.total_files,
            self.files_optimized,
            self.files_skipped,
            self.errors,
            self.bytes_saved,
        )
    }

    /// Count one settled file, and hand back what to show and emit: under
    /// structured output a `file_complete` event (when a record exists)
    /// followed by a fresh `progress` event; always the display line.
    pub fn handle_file_completion(
        &mut self,
        config: &Config,
        display_name: &str,
        outcome: &TaskOutcome,
    ) -> (r: CompletionOutput)
        requires
            old(self).current_file < old(self).total_files,
            old(self).files_optimized < usize::MAX,
            old(self).files_skipped < usize::MAX,
            old(self).errors < usize::MAX,
        ensures
            final(self).total_files == old(self).total_files,
            final(self).current_file == old(self).current_file + 1,
            counters_consistent(old(self)) ==> counters_consistent(final(self)),
            match outcome {
                TaskOutcome::Completed(p) => if record_reads_skipped(p) {
                    *final(self) == ProgressTracker {
                        current_file: (old(self).current_file + 1) as usize,
                        files_skipped: (old(self).files_skipped + 1) as usize,
                        ..*old(self)
                    }
                } else {
                    *final(self) == ProgressTracker {
                        current_file: (old(self).current_file + 1) as usize,
                        files_optimized: (old(self).files_optimized + 1) as usize,
                        bytes_saved: sat_add_u64(
                            old(self).bytes_saved as int,
                            if p.original_size >= p.optimized_size {
                                p.original_size - p.optimized_size
                            } else {
                                0
                            },
                        ) as u64,
                        ..*old(self)
                    }
                },
                TaskOutcome::Skipped(_) => *final(self) == ProgressTracker {
                    current_file: (old(self).current_file + 1) as usize,
                    files_skipped: (old(self).files_skipped + 1) as usize,
                    ..*old(self)
                },
                TaskOutcome::Failed(_, _) => *final(self) == ProgressTracker {
                    current_file: (old(self).current_file + 1) as usize,
                    errors: (old(self).errors + 1) as usize,
                    ..*old(self)
                },
            },
            r.message@ == completion_message_chars(outcome, display_name@),
            !config.json_output ==> r.events@.len() == 0,
            config.json_output ==> match outcome {
                TaskOutcome::Completed(p) => r.events@.len() == 2 && r.events@[0]
                    == (JsonMessage::FileComplete {
                    path: p.path,
                    original_size: p.original_size,
                    optimized_size: p.optimized_size,
                    reduction_permille: p.reduction_permille,
                    skipped: record_reads_skipped(p),
                    error: None::<String>,
                }) && r.events@[1] == final(self).progress_event_spec(),
                TaskOutcome::Skipped(rec) => match rec {
                    Some(p) => r.events@.len() == 2 && r.events@[0] == (JsonMessage::FileComplete {
                        path: p.path,
                        original_size: p.original_size,
                        optimized_size: p.optimized_size,
                        reduction_permille: p.reduction_permille,
                        skipped: true,
                        error: None::<String>,
                    }) && r.events@[1] == final(self).progress_event_spec(),
                    None => r.events@.len() == 1 && r.events@[0]
                        == final(self).progress_event_spec(),
                },
                TaskOutcome::Failed(rec, msg) => match rec {
                    Some(p) => r.events@.len() == 2 && r.events@[0] == (JsonMessage::FileComplete {
                        path: p.path,
                        original_size: p.original_size,
                        optimized_size: p.optimized_size,
                        reduction_permille: p.reduction_permille,
                        skipped: false,
                        error: Some(*msg),
                    }) && r.events@[1] == final(self).progress_event_spec(),
                    None => r.events@.len() == 1 && r.events@[0]
                        == final(self).progress_event_spec(),
                },
            },
    {
        self.increment_current();
        let mut events: Vec<JsonMessage> = Vec::new();
        let message: String;
        match outcome {
            TaskOutcome::Completed(p) => {
                if p.original_size == p.optimized_size {
                    self.add_skipped();
                    if config.json_output {
                        events.push(JsonMessage::file_complete(p, true, None));
                        events.push(self.progress_event());
                    }
                    let mut m = "[SKIP] ".to_owned();
                    m.append(display_name);
                    m.append(": No optimization needed");
                    message = m;
                } else {
                    let saved = if p.original_size >= p.optimized_size {
                        p.original_size - p.optimized_size
                    } else {
                        0
                    };
                    self.add_optimized(saved);
                    if config.json_output {
                        events.push(JsonMessage::file_complete(p, false, None));
                        events.push(self.progress_event());
                    }
                    let mut m = "[OK] ".to_owned();
                    m.append(display_name);
                    m.append(": ");
                    m.append(u64_to_string(p.reduction_permille / 10).as_str());
                    m.append(".");
                    m.append(crate::text::u64_to_string(p.reduction_permille % 10).as_str());
                    m.append("% saved");
                    proof {
                        reveal_strlit(".");
                    }
                    message = m;
                }
            },
            TaskOutcome::Skipped(rec) => {
                self.add_skipped();
                if config.json_output {
                    match rec {
                        Some(p) => {
                            events.push(JsonMessage::file_complete(p, true, None));
                        },
                        None => {},
                    }
                    events.push(self.progress_event());
                }
                let mut m = "[SKIP] ".to_owned();
                m.append(display_name);
                m.append(": skipped");
                message = m;
            },
            TaskOutcome::Failed(rec, msg) => {
                self.add_error();
                if config.json_output {
                    match rec {
                        Some(p) => {
                            events.push(JsonMessage::file_complete(p, false, Some(msg.clone())));
                        },
                        None => {},
                    }
                    events.push(self.progress_event());
                }
                let mut m = "[ERROR] ".to_owned();
                m.append(display_name);
                m.append(": error");
                message = m;
            },
        }
        CompletionOutput { events, message }
    }

    /// The `progress` event these counters describe.
    pub open spec fn progress_event_spec(&self) -> JsonMessage {
        JsonMessage::Progress {
            current: self.current_file,
            total: self.total_files,
            percentage_permille: percentage_permille_spec(
                self.current_file as nat,
                self.total_files as nat,
            ) as u64,
            files_optimized: self.files_optimized,
            files_skipped: self.files_skipped,
            errors: self.errors,
            bytes_saved: self.bytes_saved,
        }
    }

    /// The counters as run statistics for the final report. Processed
    /// covers the optimized and skipped files, as the report defines it;
    /// the run's error count rides alongside.
    pub fn get_stats(&self) -> (r: OptimizationStats)
        requires
            self.files_optimized + self.files_skipped <= usize::MAX,
        ensures
            r.files_processed == self.files_optimized + self.files_skipped,
            r.files_optimized == self.files_optimized,
            r.files_skipped == self.files_skipped,
            r.errors == self.errors,
            r.total_bytes_saved == self.bytes_saved,
            r.total_original_size == 0,
    {
        OptimizationStats {
            files_processed: self.files_optimized + self.files_skipped,
            files_optimized: self.files_optimized,
            files_skipped: self.files_skipped,
            total_bytes_saved: self.bytes_saved,
            total_original_size: 0,
            errors: self.errors,
        }
    }
}

} // verus!
