//! Run-level orchestration decisions: folding settled tasks into the
//! run's statistics, building the final and empty-run reports, and the
//! common base directory used when thumbnails are cut from originals.
//! Launching tasks, awaiting them, and emitting the reports happen
//! outside this crate.

use vstd::prelude::*;

use crate::events::{HistoricalStats, JsonMessage};
use crate::paths::{DirPath, FilePath};
use crate::stats::{sat_add_u64, OptimizationStats};

verus! {

/// How one launched task settled, reduced to what the run report needs.
#[derive(Debug, Clone, Copy)]
pub enum TaskResult {
    /// The pipeline returned a record with these sizes.
    Completed { original_size: u64, optimized_size: u64 },
    /// The pipeline skipped the file.
    Skipped,
    /// The task failed or timed out.
    Failed,
}

/// How many results completed.
pub open spec fn completed_count(s: Seq<TaskResult>) -> int
    decreases s.len(),
{
    if s.len() == 0 {
        0
    } else {
        completed_count(s.drop_last()) + if s.last() is Completed {
            1int
        } else {
            0int
        }
    }
}

/// How many results were skips.
pub open spec fn skipped_count(s: Seq<TaskResult>) -> int
    decreases s.len(),
{
    if s.len() == 0 {
        0
    } else {
        skipped_count(s.drop_last()) + if s.last() is Skipped {
            1int
        } else {
            0int
        }
    }
}

/// How many results failed.
pub open spec fn failed_count(s: Seq<TaskResult>) -> int
    decreases s.len(),
{
    if s.len() == 0 {
        0
    } else {
        failed_count(s.drop_last()) + if s.last() is Failed {
            1int
        } else {
            0int
        }
    }
}

/// The original bytes of one result, counted only for completions.
pub open spec fn original_of(r: TaskResult) -> int {
    match r {
        TaskResult::Completed { original_size, .. } => original_size as int,
        _ => 0,
    }
}

/// The bytes one result saved: the size difference of a completion,
/// nothing when the file grew, nothing for skips and failures.
pub open spec fn saved_of_result(r: TaskResult) -> int {
    match r {
        TaskResult::Completed { original_size, optimized_size } => if original_size
            >= optimized_size {
            original_size - optimized_size
        } else {
            0
        },
        _ => 0,
    }
}

/// Total original bytes over a run's completions.
pub open spec fn sum_original(s: Seq<TaskResult>) -> int
    decreases s.len(),
{
    if s.len() == 0 {
        0
    } else {
        sum_original(s.drop_last()) + original_of(s.last())
    }
}

/// Total saved bytes over a run's completions.
pub open spec fn sum_saved_results(s: Seq<TaskResult>) -> int
    decreases s.len(),
{
    if s.len() == 0 {
        0
    } else {
        sum_saved_results(s.drop_last()) + saved_of_result(s.last())
    }
}

/// The outcomes partition the results: every settled task is exactly one
/// of completed, skipped or failed, so the run report's processed count
/// equals the sum of its three outcome counters.
pub proof fn lemma_outcomes_partition_results(s: Seq<TaskResult>)
    ensures
        completed_count(s) + skipped_count(s) + failed_count(s) == s.len(),
    decreases s.len(),
{
    if s.len() > 0 {
        lemma_outcomes_partition_results(s.drop_last());
    }
}

/// Fold every settled task into the run statistics: completions count as
/// optimized, skips as skipped, failures as errors, and every result as
/// processed; the byte totals saturate at the counter's range.
pub fn aggregate_results(results: &Vec<TaskResult>) -> (r: OptimizationStats)
    ensures
        r.files_processed == results@.len(),
        r.files_optimized == completed_count(results@),
        r.files_skipped == skipped_count(results@),
        r.errors == failed_count(results@),
        r.total_original_size == sat_cap(sum_original(results@)),
        r.total_bytes_saved == sat_cap(sum_saved_results(results@)),
{
    let mut stats = OptimizationStats::new();
    let n = results.len();
    let mut i: usize = 0;
    while i < n
        invariant
            i <= n,
            n == results@.len(),
            stats.files_processed == i,
            stats.files_optimized == completed_count(results@.take(i as int)),
            stats.files_skipped == skipped_count(results@.take(i as int)),
            stats.errors == failed_count(results@.take(i as int)),
            stats.files_optimized <= i,
            stats.files_skipped <= i,
            stats.errors <= i,
            stats.total_original_size == sat_cap(sum_original(results@.take(i as int))),
            stats.total_bytes_saved == sat_cap(sum_saved_results(results@.take(i as int))),
        decreases n - i,
    {
        proof {
            assert(results@.take(i + 1).drop_last() =~= results@.take(i as int));
            assert(results@.take(i + 1).last() == results@[i as int]);
        }
        match results[i] {
            TaskResult::Completed { original_size, optimized_size } => {
                stats.add_optimized(original_size, optimized_size);
            },
            TaskResult::Skipped => {
                stats.add_skipped(0);
            },
            TaskResult::Failed => {
                stats.add_error();
            },
        }
        i = i + 1;
    }
    proof {
        assert(results@.take(n as int) =~= results@);
    }
    stats
}

/// A nonnegative total capped at the byte counter's range.
pub open spec fn sat_cap(v: int) -> int {
    if v > u64::MAX {
        u64::MAX as int
    } else {
        v
    }
}

/// A nonnegative count capped at the count type's range.
pub open spec fn sat_cap_usize(v: int) -> int {
    if v > usize::MAX {
        usize::MAX as int
    } else {
        v
    }
}

/// The final `complete` event: the run's counters, its overall reduction,
/// its duration, and the ledger's lifetime statistics.
pub fn final_report(
    stats: &OptimizationStats,
    duration_ms: u64,
    ledger_count: usize,
    ledger_saved: u64,
    ledger_avg_reduction: u64,
) -> (r: JsonMessage)
    ensures
        r == (JsonMessage::Complete {
            files_processed: stats.files_processed,
            files_optimized: stats.files_optimized,
            files_skipped: stats.files_skipped,
            errors: stats.errors,
            total_bytes_saved: stats.total_bytes_saved,
            average_reduction_permille: crate::stats::overall_reduction_permille_spec(
                stats,
            ) as u64,
            duration_ms,
            historical_stats: HistoricalStats {
                total_files_ever_processed: ledger_count,
                total_bytes_saved_historically: ledger_saved,
                average_historical_reduction_permille: ledger_avg_reduction,
            },
        }),
{
    JsonMessage::complete(
        stats.files_processed,
        stats.files_optimized,
        stats.files_skipped,
        stats.errors,
        stats.total_bytes_saved,
        stats.overall_reduction_permille(),
        duration_ms,
        HistoricalStats {
            total_files_ever_processed: ledger_count,
            total_bytes_saved_historically: ledger_saved,
            average_historical_reduction_permille: ledger_avg_reduction,
        },
    )
}

/// The `complete` event for a run that found nothing to do.
pub fn empty_run_report(duration_ms: u64) -> (r: JsonMessage)
    ensures
        r == (JsonMessage::Complete {
            files_processed: 0,
            files_optimized: 0,
            files_skipped: 0,
            errors: 0,
            total_bytes_saved: 0,
            average_reduction_permille: 0,
            duration_ms,
            historical_stats: HistoricalStats {
                total_files_ever_processed: 0,
                total_bytes_saved_historically: 0,
                average_historical_reduction_permille: 0,
            },
        }),
{
    JsonMessage::complete(
        0,
        0,
        0,
        0,
        0,
        0,
        duration_ms,
        HistoricalStats {
            total_files_ever_processed: 0,
            total_bytes_saved_historically: 0,
            average_historical_reduction_permille: 0,
        },
    )
}

/// The longest shared initial run of two directories' components.
pub open spec fn common_prefix2(a: Seq<Seq<char>>, b: Seq<Seq<char>>) -> Seq<Seq<char>>
    decreases a.len(),
{
    if a.len() == 0 || b.len() == 0 || a[0] != b[0] {
        Seq::empty()
    } else {
        seq![a[0]] + common_prefix2(a.drop_first(), b.drop_first())
    }
}

/// The directory shared by every file's parent, folded left to right; the
/// empty component list when nothing is shared (or there are no files).
pub open spec fn common_base_dirs(dirs: Seq<Seq<Seq<char>>>) -> Seq<Seq<char>>
    decreases dirs.len(),
{
    if dirs.len() == 0 {
        Seq::empty()
    } else if dirs.len() == 1 {
        dirs[0]
    } else {
        common_prefix2(common_base_dirs(dirs.drop_last()), dirs.last())
    }
}

/// The parents of a file list, in order.
pub open spec fn parent_dirs(files: Seq<FilePath>) -> Seq<Seq<Seq<char>>> {
    files.map(|i: int, f: FilePath| f.dir@)
}

/// A shared initial run up to the first mismatch is exactly what
/// `common_prefix2` returns.
proof fn lemma_common_prefix_is_take(a: Seq<Seq<char>>, b: Seq<Seq<char>>, k: int)
    requires
        0 <= k <= a.len(),
        k <= b.len(),
        forall|j: int| 0 <= j < k ==> a[j] == b[j],
        k == a.len() || k == b.len() || a[k] != b[k],
    ensures
        common_prefix2(a, b) == a.take(k),
    decreases a.len(),
{
    if k == 0 {
        if a.len() == 0 || b.len() == 0 || a[0] != b[0] {
            assert(common_prefix2(a, b) =~= a.take(0));
        } else {
            assert(false);
        }
    } else {
        assert(a[0] == b[0]);
        lemma_common_prefix_is_take(a.drop_first(), b.drop_first(), k - 1);
        assert(common_prefix2(a, b) == seq![a[0]] + a.drop_first().take(k - 1));
        assert(seq![a[0]] + a.drop_first().take(k - 1) =~= a.take(k));
    }
}

/// The longest shared initial run of two directories.
pub fn common_prefix(a: &DirPath, b: &DirPath) -> (r: DirPath)
    ensures
        r@ == common_prefix2(a@, b@),
{
    let an = a.comps.len();
    let bn = b.comps.len();
    let mut k: usize = 0;
    while k < an && k < bn
        invariant
            k <= an,
            k <= bn,
            an == a@.len(),
            bn == b@.len(),
            forall|j: int| 0 <= j < k ==> a@[j] == b@[j],
        ensures
            k <= an && k <= bn,
            an == a@.len(),
            bn == b@.len(),
            forall|j: int| 0 <= j < k ==> a@[j] == b@[j],
            k == an || k == bn || a@[k as int] != b@[k as int],
        decreases an - k,
    {
        proof {
            assert(a@[k as int] == a.comps@[k as int]@);
            assert(b@[k as int] == b.comps@[k as int]@);
        }
        if !a.comps[k].eq(&b.comps[k]) {
            break ;
        }
        k = k + 1;
    }
    proof {
        lemma_common_prefix_is_take(a@, b@, k as int);
    }
    a.take_prefix(k)
}

/// The directory shared by all the given files' parents: the longest
/// common prefix of their directory components. `None` when the list is
/// empty; the empty component list when the parents share nothing.
pub fn find_common_base_dir(files: &Vec<FilePath>) -> (r: Option<DirPath>)
    ensures
        files@.len() == 0 <==> r is None,
        r matches Some(d) ==> d@ == common_base_dirs(parent_dirs(files@)),
{
    let n = files.len();
    if n == 0 {
        return None;
    }
    let mut common: DirPath = files[0].dir.take_prefix(files[0].dir.comps.len());
    proof {
        assert(common@ =~= parent_dirs(files@)[0]);
        assert(parent_dirs(files@.take(1)) =~= seq![parent_dirs(files@)[0]]);
    }
    let mut i: usize = 1;
    while i < n
        invariant
            1 <= i <= n,
            n == files@.len(),
            common@ == common_base_dirs(parent_dirs(files@.take(i as int))),
        decreases n - i,
    {
        common = common_prefix(&common, &files[i].dir);
        proof {
            let dirs_next = parent_dirs(files@.take(i + 1));
            assert(dirs_next.drop_last() =~= parent_dirs(files@.take(i as int)));
            assert(dirs_next.last() == files@[i as int].dir@);
            assert(dirs_next.len() >= 2);
        }
        i = i + 1;
    }
    proof {
        assert(files@.take(n as int) =~= files@);
    }
    Some(common)
}

} // verus!
