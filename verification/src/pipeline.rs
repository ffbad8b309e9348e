//! The per-file pipeline: skip check, media routing, the size-threshold
//! decision, and the commit action, all as pure decisions. The
//! surrounding process canonicalizes the path, runs the encoder, and
//! carries out the chosen action; cancellation and timeouts wrap that
//! execution outside this crate.

use vstd::prelude::*;

use crate::config::Config;
use crate::error::OptimizeError;
use crate::file_manager::{is_image_path, is_video_path, reduction_permille_spec};
use crate::ledger::{has_record, record_at, ProcessedFile, StateManager};
use crate::paths::FilePath;

verus! {

/// Which encoder a file is routed to.
#[derive(Debug, Clone, Copy, PartialEq, Eq, Structural)]
pub enum MediaKind {
    Image,
    Video,
}

/// Route a file by its extension, or reject it; images win when an
/// extension somehow reads as both.
pub fn route_media(path: &FilePath) -> (r: Result<MediaKind, OptimizeError>)
    ensures
        is_image_path(path) ==> (r matches Ok(k) && k == MediaKind::Image),
        !is_image_path(path) && is_video_path(path) ==> (r matches Ok(k) && k == MediaKind::Video),
        !is_image_path(path) && !is_video_path(path) ==> (r matches Err(
            OptimizeError::UnsupportedFormat(m),
        ) && m@ == "Unsupported file type"@),
{
    if crate::file_manager::FileManager::is_image(path) {
        Ok(MediaKind::Image)
    } else if crate::file_manager::FileManager::is_video(path) {
        Ok(MediaKind::Video)
    } else {
        Err(OptimizeError::UnsupportedFormat("Unsupported file type".to_owned()))
    }
}

/// Whether the pipeline skips a file before any work: in-place mode asks
/// the ledger for an exact modification-time match; output-directory mode
/// with keep-existing asks only whether the resolved output already
/// exists; otherwise nothing is skipped.
pub open spec fn skip_spec(
    config: &Config,
    records: Seq<ProcessedFile>,
    path: Seq<char>,
    modified_time: u64,
    output_exists: bool,
) -> bool {
    if config.output_path is None {
        has_record(records, path) && record_at(records, path).modified_time == modified_time
    } else if config.keep_processed {
        output_exists
    } else {
        false
    }
}

/// The skip check. `output_exists` is whether the file's resolved output
/// path is already present on disk; it is consulted only in
/// output-directory mode with keep-existing set.
pub fn should_skip_file(
    config: &Config,
    ledger: &StateManager,
    path: &str,
    modified_time: u64,
    output_exists: bool,
) -> (r: bool)
    requires
        ledger.wf(),
    ensures
        r == skip_spec(config, ledger.records(), path@, modified_time, output_exists),
{
    if config.output_path.is_none() {
        ledger.is_processed(path, modified_time)
    } else if config.keep_processed {
        output_exists
    } else {
        false
    }
}

/// The threshold law: an optimization result is kept exactly when
/// `optimized * 1000 < original * threshold`, i.e. when the new size is
/// strictly below the configured fraction of the original.
pub open spec fn should_replace_spec(
    optimized_size: nat,
    original_size: nat,
    threshold_permille: nat,
) -> bool {
    optimized_size * 1000 < original_size * threshold_permille
}

/// Decide whether a result clears the size threshold.
pub fn should_replace(optimized_size: u64, original_size: u64, threshold_permille: u32) -> (r:
    bool)
    ensures
        r == should_replace_spec(
            optimized_size as nat,
            original_size as nat,
            threshold_permille as nat,
        ),
{
    proof {
        assert((original_size as int) * (threshold_permille as int) <= u128::MAX)
            by (nonlinear_arith)
            requires
                original_size <= u64::MAX,
                threshold_permille <= u32::MAX,
        ;
    }
    (optimized_size as u128) * 1000 < (original_size as u128) * (threshold_permille as u128)
}

/// On the boundary — the optimized size exactly at the threshold fraction
/// of the original — the file is not replaced.
pub proof fn lemma_threshold_boundary(optimized_size: nat, original_size: nat, threshold: nat)
    requires
        optimized_size * 1000 == original_size * threshold,
    ensures
        !should_replace_spec(optimized_size, original_size, threshold),
{
}

/// What a poll of the out-of-band cancellation channel found.
#[derive(Debug, Clone, Copy, PartialEq, Eq, Structural)]
pub enum CancellationSignal {
    /// A stop was signaled.
    Received,
    /// Nothing yet.
    Empty,
    /// A signal was sent but missed.
    Lagged,
    /// The signaling side is gone.
    Closed,
}

/// Whether a task stops at a checkpoint: on a received signal, and —
/// conservatively — on a lagged one; a closed channel means nobody can
/// cancel any more, so work continues.
pub fn should_stop(signal: CancellationSignal) -> (r: bool)
    ensures
        r == (signal is Received || signal is Lagged),
{
    match signal {
        CancellationSignal::Received => true,
        CancellationSignal::Lagged => true,
        CancellationSignal::Empty => false,
        CancellationSignal::Closed => false,
    }
}

/// What the commit step does to the filesystem.
#[derive(Debug, Clone, Copy, PartialEq, Eq, Structural)]
pub enum CommitAction {
    /// In-place, kept: back up the original, copy the result over it,
    /// drop the backup, remove the temporary file.
    ReplaceOriginal,
    /// Output mode, kept: the encoded file already sits at the resolved
    /// output path; leave it.
    KeepOutput,
    /// Output mode, discarded: copy the original bytes verbatim to the
    /// resolved output path, so every input has an output counterpart.
    CopyOriginalToOutput,
    /// Remove the temporary encoder result; the original is untouched.
    RemoveTemp,
}

/// Whether an action rewrites the input file's bytes.
pub open spec fn mutates_input(a: CommitAction) -> bool {
    a is ReplaceOriginal
}

/// Whether an action writes anything at all.
pub open spec fn mutates_filesystem(a: CommitAction) -> bool {
    a is ReplaceOriginal || a is CopyOriginalToOutput
}

/// The commit action for one settled encoding, as a function of the mode,
/// the dry-run flag, and the threshold decision. Dry-run performs the
/// same decisions but only ever cleans up its temporary file.
pub open spec fn commit_action_spec(output_mode: bool, dry_run: bool, kept: bool) -> CommitAction {
    if kept {
        if dry_run {
            CommitAction::RemoveTemp
        } else if output_mode {
            CommitAction::KeepOutput
        } else {
            CommitAction::ReplaceOriginal
        }
    } else {
        if output_mode && !dry_run {
            CommitAction::CopyOriginalToOutput
        } else {
            CommitAction::RemoveTemp
        }
    }
}

/// The record the run reports for one settled encoding: the measured
/// sizes when the result was kept; the original size for both when it was
/// discarded (so the recorded reduction is zero and the file reads as
/// unimproved).
pub open spec fn recorded_optimized_size(kept: bool, original_size: u64, optimized_size: u64) -> u64 {
    if kept {
        optimized_size
    } else {
        original_size
    }
}

/// Everything the commit step decides for one file.
#[derive(Debug)]
pub struct CommitDecision {
    /// What to do on disk.
    pub action: CommitAction,
    /// The record to report, and to write to the ledger when asked.
    pub record: ProcessedFile,
    /// Whether the ledger is updated — only ever in in-place mode;
    /// output-directory mode is idempotent by file existence instead.
    pub update_ledger: bool,
}

impl CommitDecision {
    /// The decision's well-formedness against its inputs.
    pub open spec fn matches(
        &self,
        config: &Config,
        path: Seq<char>,
        modified_time: u64,
        original_size: u64,
        optimized_size: u64,
        processed_at: u64,
    ) -> bool {
        let kept = should_replace_spec(
            optimized_size as nat,
            original_size as nat,
            config.size_threshold_permille as nat,
        );
        &&& self.action == commit_action_spec(config.output_path is Some, config.dry_run, kept)
        &&& self.record.path@ == path
        &&& self.record.modified_time == modified_time
        &&& self.record.original_size == original_size
        &&& self.record.optimized_size == recorded_optimized_size(
            kept,
            original_size,
            optimized_size,
        )
        &&& self.record.processed_at == processed_at
        &&& self.record.reduction_permille == reduction_permille_spec(
            original_size as nat,
            self.record.optimized_size as nat,
        )
        &&& self.update_ledger == (config.output_path is None)
    }
}

/// Decide the commit for one encoded file: apply the threshold, pick the
/// action, build the record, and say whether the ledger is updated.
pub fn decide_commit(
    config: &Config,
    path: String,
    modified_time: u64,
    original_size: u64,
    optimized_size: u64,
    processed_at: u64,
) -> (r: CommitDecision)
    ensures
        r.matches(config, path@, modified_time, original_size, optimized_size, processed_at),
{
    let kept = should_replace(optimized_size, original_size, config.size_threshold_permille);
    let action = if kept {
        if config.dry_run {
            CommitAction::RemoveTemp
        } else if config.output_path.is_some() {
            CommitAction::KeepOutput
        } else {
            CommitAction::ReplaceOriginal
        }
    } else {
        if config.output_path.is_some() && !config.dry_run {
            CommitAction::CopyOriginalToOutput
        } else {
            CommitAction::RemoveTemp
        }
    };
    let recorded = if kept {
        optimized_size
    } else {
        original_size
    };
    let record = ProcessedFile::new(path, modified_time, original_size, recorded, processed_at);
    CommitDecision { action, record, update_ledger: config.output_path.is_none() }
}

/// Dry-run safety: with dry-run enabled the chosen action never touches
/// an input file — nor anything else on disk beyond its own temporary
/// file.
pub proof fn lemma_dry_run_is_safe(output_mode: bool, kept: bool)
    ensures
        !mutates_input(commit_action_spec(output_mode, true, kept)),
        !mutates_filesystem(commit_action_spec(output_mode, true, kept)),
{
}

/// Dry-run reporting: two commits over the same measurements, under
/// configurations that differ only in the dry-run flag, report the very
/// same record — the same sizes and the same reduction — since neither
/// the threshold decision nor the recorded sizes consult the flag.
pub proof fn lemma_dry_run_same_record(
    dry: &Config,
    wet: &Config,
    d1: &CommitDecision,
    d2: &CommitDecision,
    path: Seq<char>,
    modified_time: u64,
    original_size: u64,
    optimized_size: u64,
    processed_at: u64,
)
    requires
        dry.size_threshold_permille == wet.size_threshold_permille,
        dry.output_path is Some <==> wet.output_path is Some,
        d1.matches(dry, path, modified_time, original_size, optimized_size, processed_at),
        d2.matches(wet, path, modified_time, original_size, optimized_size, processed_at),
    ensures
        d1.record.path@ == d2.record.path@,
        d1.record.modified_time == d2.record.modified_time,
        d1.record.original_size == d2.record.original_size,
        d1.record.optimized_size == d2.record.optimized_size,
        d1.record.reduction_permille == d2.record.reduction_permille,
        d1.record.processed_at == d2.record.processed_at,
        d1.update_ledger == d2.update_ledger,
{
}

/// Idempotency by the ledger: a file recorded as processed at
/// modification time `t`, seen again at the same `t` in in-place mode, is
/// skipped — never re-encoded.
pub proof fn lemma_recorded_file_is_skipped(
    config: &Config,
    records: Seq<ProcessedFile>,
    path: Seq<char>,
    t: u64,
    output_exists: bool,
)
    requires
        config.output_path is None,
        has_record(records, path),
        record_at(records, path).modified_time == t,
    ensures
        skip_spec(config, records, path, t, output_exists),
{
}

/// Idempotency by existence: in output-directory mode with keep-existing
/// set, a file whose resolved output is already present is skipped, so a
/// second run over an unchanged tree encodes nothing and leaves the
/// output tree as it found it.
pub proof fn lemma_existing_output_is_skipped(
    config: &Config,
    records: Seq<ProcessedFile>,
    path: Seq<char>,
    t: u64,
)
    requires
        config.output_path is Some,
        config.keep_processed,
    ensures
        skip_spec(config, records, path, t, true),
{
}

} // verus!
