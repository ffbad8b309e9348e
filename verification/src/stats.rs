//! Run-scoped counters, distinct from the ledger's lifetime statistics,
//! and the one-line summary rendered from them at the end of a run.

use vstd::prelude::*;

use crate::file_manager::{format_size_chars, FileManager};
use crate::text::{dec_str, usize_to_string};

verus! {

/// The sum `a + b` capped at the top of the counter's range.
pub open spec fn sat_add_u64(a: int, b: int) -> int {
    if a + b > u64::MAX {
        u64::MAX as int
    } else {
        a + b
    }
}

/// Counters for one run: processed covers every settled task, optimized
/// and skipped and errors partition them by outcome, and the byte totals
/// saturate rather than wrap.
#[derive(Debug)]
pub struct OptimizationStats {
    pub files_processed: usize,
    pub files_optimized: usize,
    pub files_skipped: usize,
    pub total_bytes_saved: u64,
    pub total_original_size: u64,
    pub errors: usize,
}

impl Default for OptimizationStats {
    /// All counters at zero.
    fn default() -> (r: OptimizationStats)
        ensures
            r.files_processed == 0,
            r.files_optimized == 0,
            r.files_skipped == 0,
            r.total_bytes_saved == 0,
            r.total_original_size == 0,
            r.errors == 0,
    {
        OptimizationStats {
            files_processed: 0,
            files_optimized: 0,
            files_skipped: 0,
            total_bytes_saved: 0,
            total_original_size: 0,
            errors: 0,
        }
    }
}

impl OptimizationStats {
    /// All counters at zero.
    pub fn new() -> (r: OptimizationStats)
        ensures
            r.files_processed == 0,
            r.files_optimized == 0,
            r.files_skipped == 0,
            r.total_bytes_saved == 0,
            r.total_original_size == 0,
            r.errors == 0,
    {
        OptimizationStats {
            files_processed: 0,
            files_optimized: 0,
            files_skipped: 0,
            total_bytes_saved: 0,
            total_original_size: 0,
            errors: 0,
        }
    }

    /// Count one file whose optimization result was kept; the saving is
    /// the size difference (nothing when the file grew).
    pub fn add_optimized(&mut self, original_size: u64, new_size: u64)
        requires
            old(self).files_processed < usize::MAX,
            old(self).files_optimized < usize::MAX,
        ensures
            final(self).files_processed == old(self).files_processed + 1,
            final(self).files_optimized == old(self).files_optimized + 1,
            final(self).files_skipped == old(self).files_skipped,
            final(self).errors == old(self).errors,
            final(self).total_original_size == sat_add_u64(
                old(self).total_original_size as int,
                original_size as int,
            ),
            final(self).total_bytes_saved == sat_add_u64(
                old(self).total_bytes_saved as int,
                if original_size >= new_size {
                    original_size - new_size
                } else {
                    0
                },
            ),
    {
        self.files_processed = self.files_processed + 1;
        self.files_optimized = self.files_optimized + 1;
        self.total_original_size = sat_add(self.total_original_size, original_size);
        let saved = if original_size >= new_size {
            original_size - new_size
        } else {
            0
        };
        self.total_bytes_saved = sat_add(self.total_bytes_saved, saved);
    }

    /// Count one skipped file of the given original size.
    pub fn add_skipped(&mut self, original_size: u64)
        requires
            old(self).files_processed < usize::MAX,
            old(self).files_skipped < usize::MAX,
        ensures
            final(self).files_processed == old(self).files_processed + 1,
            final(self).files_skipped == old(self).files_skipped + 1,
            final(self).files_optimized == old(self).files_optimized,
            final(self).errors == old(self).errors,
            final(self).total_bytes_saved == old(self).total_bytes_saved,
            final(self).total_original_size == sat_add_u64(
                old(self).total_original_size as int,
                original_size as int,
            ),
    {
        self.files_processed = self.files_processed + 1;
        self.files_skipped = self.files_skipped + 1;
        self.total_original_size = sat_add(self.total_original_size, original_size);
    }

    /// Count one failed file.
    pub fn add_error(&mut self)
        requires
            old(self).files_processed < usize::MAX,
            old(self).errors < usize::MAX,
        ensures
            final(self).files_processed == old(self).files_processed + 1,
            final(self).errors == old(self).errors + 1,
            final(self).files_optimized == old(self).files_optimized,
            final(self).files_skipped == old(self).files_skipped,
            final(self).total_bytes_saved == old(self).total_bytes_saved,
            final(self).total_original_size == old(self).total_original_size,
    {
        self.files_processed = self.files_processed + 1;
        self.errors = self.errors + 1;
    }

    /// The run's overall reduction in thousandths of the total original
    /// bytes; zero when nothing was measured.
    pub fn overall_reduction_permille(&self) -> (r: u64)
        ensures
            r == overall_reduction_permille_spec(self),
    {
        if self.total_original_size == 0 {
            0
        } else {
            let scaled: u128 = (self.total_bytes_saved as u128) * 1000;
            let out: u128 = scaled / (self.total_original_size as u128);
            if out > u64::MAX as u128 {
                u64::MAX
            } else {
                out as u64
            }
        }
    }

    /// One line with every counter, the saved bytes human-readable, and
    /// the overall reduction as a percentage with two decimals.
    pub fn format_summary(&self) -> (r: String)
        ensures
            r@ == summary_chars(self),
    {
        let mut s = "Processed: ".to_owned();
        s.append(usize_to_string(self.files_processed).as_str());
        s.append(" files | Optimized: ");
        s.append(usize_to_string(self.files_optimized).as_str());
        s.append(" | Skipped: ");
        s.append(usize_to_string(self.files_skipped).as_str());
        s.append(" | Errors: ");
        s.append(usize_to_string(self.errors).as_str());
        s.append(" | Total saved: ");
        s.append(FileManager::format_size(self.total_bytes_saved).as_str());
        s.append(" (");
        let basis_points: u64 = if self.total_original_size == 0 {
            0
        } else {
            let scaled: u128 = (self.total_bytes_saved as u128) * 10000;
            let out: u128 = scaled / (self.total_original_size as u128);
            if out > u64::MAX as u128 {
                u64::MAX
            } else {
                out as u64
            }
        };
        s.append(crate::text::u64_to_string(basis_points / 100).as_str());
        s.append(".");
        s.append(crate::text::u64_to_two_digits(basis_points % 100).as_str());
        s.append("%)");
        proof {
            reveal_strlit(".");
        }
        s
    }
}

/// Saturating addition on the byte counters.
fn sat_add(a: u64, b: u64) -> (r: u64)
    ensures
        r == sat_add_u64(a as int, b as int),
{
    if a > u64::MAX - b {
        u64::MAX
    } else {
        a + b
    }
}

/// The run's overall reduction in thousandths, capped at the counter's
/// range.
pub open spec fn overall_reduction_permille_spec(s: &OptimizationStats) -> int {
    if s.total_original_size == 0 {
        0
    } else {
        let raw = (s.total_bytes_saved as int) * 1000 / (s.total_original_size as int);
        if raw > u64::MAX {
            u64::MAX as int
        } else {
            raw
        }
    }
}

/// The run's overall reduction in hundredths of a percent, capped at the
/// counter's range.
pub open spec fn reduction_basis_points_spec(s: &OptimizationStats) -> int {
    if s.total_original_size == 0 {
        0
    } else {
        let raw = (s.total_bytes_saved as int) * 10000 / (s.total_original_size as int);
        if raw > u64::MAX {
            u64::MAX as int
        } else {
            raw
        }
    }
}

/// What `format_summary` renders.
pub open spec fn summary_chars(s: &OptimizationStats) -> Seq<char> {
    let bp = reduction_basis_points_spec(s);
    "Processed: "@ + dec_str(s.files_processed as nat) + " files | Optimized: "@ + dec_str(
        s.files_optimized as nat,
    ) + " | Skipped: "@ + dec_str(s.files_skipped as nat) + " | Errors: "@ + dec_str(
        s.errors as nat,
    ) + " | Total saved: "@ + format_size_chars(s.total_bytes_saved as nat) + " ("@ + dec_str(
        (bp / 100) as nat,
    ) + "."@ + crate::text::two_digit_str(bp % 100) + "%)"@
}

} // verus!
