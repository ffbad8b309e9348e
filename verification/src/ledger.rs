//! The crash-tolerant idempotency ledger.
//!
//! One ledger per watched root directory records which files were already
//! processed and at what modification time, so that no work is redone.
//! The root's identity is a hash of its canonicalized path, so runs over
//! distinct roots write distinct files. The map itself lives here as a
//! vector with unique keys; reading and writing the JSON document on disk
//! is the surrounding process's job, which saves after every mutation
//! (write-through).

use vstd::prelude::*;

use crate::file_manager::{reduction_permille_spec, FileManager};
use crate::text::str_eq;
use sha2::Digest;
use vstd::utf8::encode_utf8;

verus! {

/// One processed file: the canonical path (the ledger key), the
/// modification time at processing, both sizes, the derived reduction in
/// thousandths, and when it was processed. Immutable once created; a
/// reprocessed path overwrites its record whole.
#[derive(Debug)]
pub struct ProcessedFile {
    pub path: String,
    pub modified_time: u64,
    pub original_size: u64,
    pub optimized_size: u64,
    pub reduction_permille: u64,
    pub processed_at: u64,
}

impl ProcessedFile {
    /// A record with the reduction derived from the two sizes.
    pub fn new(
        path: String,
        modified_time: u64,
        original_size: u64,
        optimized_size: u64,
        processed_at: u64,
    ) -> (r: ProcessedFile)
        ensures
            r.path == path,
            r.modified_time == modified_time,
            r.original_size == original_size,
            r.optimized_size == optimized_size,
            r.processed_at == processed_at,
            r.reduction_permille == reduction_permille_spec(
                original_size as nat,
                optimized_size as nat,
            ),
    {
        let reduction_permille = FileManager::calculate_reduction(original_size, optimized_size);
        ProcessedFile { path, modified_time, original_size, optimized_size, reduction_permille, processed_at }
    }

    /// A fresh record equal to this one.
    pub fn duplicate(&self) -> (r: ProcessedFile)
        ensures
            r == *self,
    {
        ProcessedFile {
            path: self.path.clone(),
            modified_time: self.modified_time,
            original_size: self.original_size,
            optimized_size: self.optimized_size,
            reduction_permille: self.reduction_permille,
            processed_at: self.processed_at,
        }
    }
}

/// Whether some record in `s` is keyed by `k`.
pub open spec fn has_record(s: Seq<ProcessedFile>, k: Seq<char>) -> bool {
    exists|i: int| 0 <= i < s.len() && s[i].path@ == k
}

/// The index of the record keyed by `k`; meaningful under `ledger_wf`.
pub open spec fn record_index(s: Seq<ProcessedFile>, k: Seq<char>) -> int {
    choose|i: int| 0 <= i < s.len() && s[i].path@ == k
}

/// The record keyed by `k`; meaningful under `ledger_wf` and `has_record`.
pub open spec fn record_at(s: Seq<ProcessedFile>, k: Seq<char>) -> ProcessedFile {
    s[record_index(s, k)]
}

/// One record per canonical path: keys are unique.
pub open spec fn ledger_wf(s: Seq<ProcessedFile>) -> bool {
    forall|i: int, j: int| 0 <= i < j < s.len() ==> s[i].path@ != s[j].path@
}

/// The bytes this run saved on a record: zero when the file grew.
pub open spec fn saved_of(r: ProcessedFile) -> int {
    if r.original_size >= r.optimized_size {
        r.original_size - r.optimized_size
    } else {
        0
    }
}

/// Total bytes saved over all records.
pub open spec fn sum_saved(s: Seq<ProcessedFile>) -> int
    decreases s.len(),
{
    if s.len() == 0 {
        0
    } else {
        sum_saved(s.drop_last()) + saved_of(s.last())
    }
}

/// Total of the recorded reductions, in thousandths.
pub open spec fn sum_reduction(s: Seq<ProcessedFile>) -> int
    decreases s.len(),
{
    if s.len() == 0 {
        0
    } else {
        sum_reduction(s.drop_last()) + s.last().reduction_permille
    }
}

/// The records that survive a cleanup pass: those whose flag is set.
pub open spec fn keep_flagged(s: Seq<ProcessedFile>, flags: Seq<bool>) -> Seq<ProcessedFile>
    decreases s.len(),
{
    if s.len() == 0 {
        Seq::empty()
    } else if flags[s.len() - 1] {
        keep_flagged(s.drop_last(), flags) + seq![s.last()]
    } else {
        keep_flagged(s.drop_last(), flags)
    }
}

/// The persisted document: every processed file of one watched root.
#[derive(Debug)]
pub struct StateFile {
    pub processed_files: Vec<ProcessedFile>,
}

impl StateFile {
    /// Unique keys.
    pub open spec fn wf(&self) -> bool {
        ledger_wf(self.processed_files@)
    }

    /// An empty ledger.
    pub fn empty() -> (r: StateFile)
        ensures
            r.wf(),
            r.processed_files@.len() == 0,
    {
        StateFile { processed_files: Vec::new() }
    }
}

/// The in-memory ledger of one root, plus the file name it persists to.
#[derive(Debug)]
pub struct StateManager {
    /// The document's records, keyed uniquely by canonical path.
    pub state: StateFile,
    /// The hash-derived name of the ledger file for this root.
    pub state_file_name: String,
}

impl StateManager {
    /// Unique keys.
    pub open spec fn wf(&self) -> bool {
        self.state.wf()
    }

    /// The records.
    pub open spec fn records(&self) -> Seq<ProcessedFile> {
        self.state.processed_files@
    }

    /// A ledger for the root whose canonical path is `root`, filled from
    /// the entries the caller read from disk (an empty list for a fresh
    /// root). Later entries overwrite earlier ones with the same path, so
    /// the result has one record per path whatever the input held.
    pub fn new(root: &str, entries: Vec<ProcessedFile>) -> (r: StateManager)
        ensures
            r.wf(),
            r.state_file_name@ == ledger_file_chars(root@),
            forall|i: int|
                0 <= i < entries@.len() ==> has_record(r.records(), entries@[i].path@),
            forall|k: Seq<char>|
                has_record(r.records(), k) ==> exists|i: int|
                    0 <= i < entries@.len() && entries@[i] == record_at(r.records(), k),
    {
        let state_file_name = ledger_file_name(root);
        let mut mgr = StateManager { state: StateFile::empty(), state_file_name };
        let n = entries.len();
        let mut i: usize = 0;
        while i < n
            invariant
                i <= n,
                n == entries@.len(),
                mgr.wf(),
                mgr.state_file_name@ == ledger_file_chars(root@),
                forall|j: int| 0 <= j < i ==> has_record(mgr.records(), entries@[j].path@),
                forall|k: Seq<char>|
                    has_record(mgr.records(), k) ==> exists|j: int|
                        0 <= j < i && entries@[j] == record_at(mgr.records(), k),
            decreases n - i,
        {
            mgr.mark_processed(entries[i].duplicate());
            proof {
                let rec = entries@[i as int];
                assert(record_at(mgr.records(), rec.path@) == rec);
                assert forall|k: Seq<char>| has_record(mgr.records(), k) implies exists|j: int|
                    0 <= j < i + 1 && entries@[j] == record_at(mgr.records(), k) by {
                    if k == rec.path@ {
                        assert(entries@[i as int] == record_at(mgr.records(), k));
                    }
                }
            }
            i = i + 1;
        }
        mgr
    }

    /// True only if a record exists for `path` and its stored modification
    /// time equals `modified_time` exactly; any drift, even backward,
    /// reads as "needs reprocessing".
    pub fn is_processed(&self, path: &str, modified_time: u64) -> (r: bool)
        requires
            self.wf(),
        ensures
            r == (has_record(self.records(), path@) && record_at(
                self.records(),
                path@,
            ).modified_time == modified_time),
    {
        let n = self.state.processed_files.len();
        let mut i: usize = 0;
        while i < n
            invariant
                i <= n,
                n == self.records().len(),
                self.wf(),
                forall|j: int| 0 <= j < i ==> self.records()[j].path@ != path@,
            decreases n - i,
        {
            if str_eq(self.state.processed_files[i].path.as_str(), path) {
                proof {
                    assert(has_record(self.records(), path@));
                    let ix = record_index(self.records(), path@);
                    assert(self.records()[ix].path@ == path@);
                    assert(ix == i as int);
                }
                return self.state.processed_files[i].modified_time == modified_time;
            }
            i = i + 1;
        }
        proof {
            assert(!has_record(self.records(), path@));
        }
        false
    }

    /// Upsert by path: the record for `rec.path` becomes exactly `rec`,
    /// every other record is untouched. The caller persists the document
    /// immediately after this returns (write-through); a failure to
    /// persist is a hard `State` error there.
    pub fn mark_processed(&mut self, rec: ProcessedFile)
        requires
            old(self).wf(),
        ensures
            final(self).wf(),
            final(self).state_file_name == old(self).state_file_name,
            has_record(final(self).records(), rec.path@),
            record_at(final(self).records(), rec.path@) == rec,
            forall|k: Seq<char>|
                k != rec.path@ ==> (has_record(final(self).records(), k) <==> has_record(
                    old(self).records(),
                    k,
                )),
            forall|k: Seq<char>|
                k != rec.path@ && has_record(old(self).records(), k) ==> record_at(
                    final(self).records(),
                    k,
                ) == record_at(old(self).records(), k),
            final(self).records().len() == old(self).records().len() + (
            if has_record(old(self).records(), rec.path@) {
                0int
            } else {
                1int
            }),
    {
        let n = self.state.processed_files.len();
        let mut i: usize = 0;
        while i < n
            invariant
                i <= n,
                n == self.records().len(),
                self.wf(),
                *self == *old(self),
                forall|j: int| 0 <= j < i ==> self.records()[j].path@ != rec.path@,
            decreases n - i,
        {
            if str_eq(self.state.processed_files[i].path.as_str(), rec.path.as_str()) {
                proof {
                    assert(old(self).records()[i as int].path@ == rec.path@);
                }
                self.state.processed_files[i] = rec;
                proof {
                    assert(self.records() =~= old(self).records().update(i as int, rec));
                    lemma_update_keeps_ledger(old(self).records(), i as int, rec);
                }
                return ;
            }
            i = i + 1;
        }
        proof {
            assert(!has_record(old(self).records(), rec.path@));
        }
        self.state.processed_files.push(rec);
        proof {
            assert(self.records() =~= old(self).records() + seq![rec]);
            lemma_push_keeps_ledger(old(self).records(), rec);
        }
    }

    /// Lifetime statistics over the current records: how many there are,
    /// the total bytes saved (capped at the counter's range), and the
    /// average recorded reduction in thousandths (zero with no records).
    pub fn get_stats(&self) -> (r: (usize, u64, u64))
        ensures
            r.0 == self.records().len(),
            r.1 == if sum_saved(self.records()) > u64::MAX {
                u64::MAX as int
            } else {
                sum_saved(self.records())
            },
            r.2 == if self.records().len() == 0 {
                0int
            } else {
                sum_reduction(self.records()) / self.records().len() as int
            },
    {
        let n = self.state.processed_files.len();
        let mut saved: u128 = 0;
        let mut reduction: u128 = 0;
        let mut i: usize = 0;
        while i < n
            invariant
                i <= n,
                n == self.records().len(),
                saved == sum_saved(self.records().take(i as int)),
                reduction == sum_reduction(self.records().take(i as int)),
                saved <= i * (u64::MAX as int),
                reduction <= i * (u64::MAX as int),
            decreases n - i,
        {
            let entry = &self.state.processed_files[i];
            let entry_saved: u64 = if entry.original_size >= entry.optimized_size {
                entry.original_size - entry.optimized_size
            } else {
                0
            };
            proof {
                assert(self.records().take(i + 1).drop_last() =~= self.records().take(i as int));
                assert(self.records().take(i + 1).last() == self.records()[i as int]);
            }
            saved = saved + entry_saved as u128;
            reduction = reduction + entry.reduction_permille as u128;
            i = i + 1;
        }
        proof {
            assert(self.records().take(n as int) =~= self.records());
        }
        let total_saved: u64 = if saved > u64::MAX as u128 {
            u64::MAX
        } else {
            saved as u64
        };
        let avg: u64 = if n == 0 {
            0
        } else {
            let a = reduction / (n as u128);
            proof {
                assert(a <= u64::MAX) by (nonlinear_arith)
                    requires
                        a == reduction / (n as u128),
                        reduction <= n * (u64::MAX as int),
                        n >= 1,
                ;
            }
            a as u64
        };
        (n, total_saved, avg)
    }

    /// Remove every record whose flag is false — the caller sets each
    /// flag to whether the recorded path still exists on disk — and
    /// report how many went. Run once at orchestrator start, never
    /// mid-run. A nonzero count tells the caller to persist.
    pub fn cleanup(&mut self, exists_flags: &Vec<bool>) -> (removed: usize)
        requires
            old(self).wf(),
            exists_flags@.len() == old(self).records().len(),
        ensures
            final(self).wf(),
            final(self).state_file_name == old(self).state_file_name,
            final(self).records() == keep_flagged(old(self).records(), exists_flags@),
            removed == old(self).records().len() - final(self).records().len(),
    {
        let ghost old_records = self.records();
        let n = self.state.processed_files.len();
        let mut kept: Vec<ProcessedFile> = Vec::new();
        let mut i: usize = 0;
        while i < n
            invariant
                i <= n,
                n == self.records().len(),
                *self == *old(self),
                kept@ == keep_flagged(self.records().take(i as int), exists_flags@),
                exists_flags@.len() == n,
            decreases n - i,
        {
            proof {
                assert(self.records().take(i + 1).drop_last() =~= self.records().take(i as int));
                assert(self.records().take(i + 1).last() == self.records()[i as int]);
                lemma_keep_flagged_prefix(self.records(), exists_flags@, i as int);
            }
            if exists_flags[i] {
                kept.push(self.state.processed_files[i].duplicate());
            }
            i = i + 1;
        }
        proof {
            assert(self.records().take(n as int) =~= self.records());
            lemma_keep_flagged_wf(old_records, exists_flags@);
            lemma_keep_flagged_len(old_records, exists_flags@);
        }
        let removed = n - kept.len();
        self.state.processed_files = kept;
        removed
    }
}

/// Replacing the record whose key matches keeps keys unique and leaves
/// every other key's record alone.
proof fn lemma_update_keeps_ledger(s: Seq<ProcessedFile>, i: int, rec: ProcessedFile)
    requires
        ledger_wf(s),
        0 <= i < s.len(),
        s[i].path@ == rec.path@,
    ensures
        ledger_wf(s.update(i, rec)),
        has_record(s.update(i, rec), rec.path@),
        record_at(s.update(i, rec), rec.path@) == rec,
        forall|k: Seq<char>|
            k != rec.path@ ==> (has_record(s.update(i, rec), k) <==> has_record(s, k)),
        forall|k: Seq<char>|
            k != rec.path@ && has_record(s, k) ==> record_at(s.update(i, rec), k) == record_at(
                s,
                k,
            ),
{
    let t = s.update(i, rec);
    assert forall|a: int, b: int| 0 <= a < b < t.len() implies t[a].path@ != t[b].path@ by {
        assert(s[a].path@ != s[b].path@);
    }
    assert(t[i].path@ == rec.path@);
    assert(has_record(t, rec.path@));
    let ix = record_index(t, rec.path@);
    assert(t[ix].path@ == rec.path@);
    if ix != i {
        assert(s[ix].path@ == rec.path@ && s[i].path@ == rec.path@);
        assert(false);
    }
    assert forall|k: Seq<char>| k != rec.path@ implies (has_record(t, k) <==> has_record(s, k)) by {
        if has_record(t, k) {
            let j = choose|j: int| 0 <= j < t.len() && t[j].path@ == k;
            assert(j != i);
            assert(s[j].path@ == k);
        }
        if has_record(s, k) {
            let j = choose|j: int| 0 <= j < s.len() && s[j].path@ == k;
            assert(j != i);
            assert(t[j].path@ == k);
        }
    }
    assert forall|k: Seq<char>| k != rec.path@ && has_record(s, k) implies record_at(t, k)
        == record_at(s, k) by {
        let js = record_index(s, k);
        assert(s[js].path@ == k);
        assert(js != i);
        assert(t[js].path@ == k);
        assert(has_record(t, k));
        let jt = record_index(t, k);
        assert(t[jt].path@ == k);
        if jt != js {
            if jt == i {
                assert(t[i].path@ == rec.path@);
                assert(false);
            }
            assert(s[jt].path@ == k);
            assert(false);
        }
    }
}

/// Appending a record with a fresh key keeps keys unique and leaves every
/// other key's record alone.
proof fn lemma_push_keeps_ledger(s: Seq<ProcessedFile>, rec: ProcessedFile)
    requires
        ledger_wf(s),
        !has_record(s, rec.path@),
    ensures
        ledger_wf(s + seq![rec]),
        has_record(s + seq![rec], rec.path@),
        record_at(s + seq![rec], rec.path@) == rec,
        forall|k: Seq<char>| k != rec.path@ ==> (has_record(s + seq![rec], k) <==> has_record(s, k)),
        forall|k: Seq<char>|
            k != rec.path@ && has_record(s, k) ==> record_at(s + seq![rec], k) == record_at(s, k),
{
    let t = s + seq![rec];
    let n = s.len() as int;
    assert forall|a: int, b: int| 0 <= a < b < t.len() implies t[a].path@ != t[b].path@ by {
        if b < n {
            assert(s[a].path@ != s[b].path@);
        } else {
            assert(t[b] == rec);
            assert(t[a] == s[a]);
            if s[a].path@ == rec.path@ {
                assert(has_record(s, rec.path@));
            }
        }
    }
    assert(t[n].path@ == rec.path@);
    assert(has_record(t, rec.path@));
    let ix = record_index(t, rec.path@);
    assert(t[ix].path@ == rec.path@);
    if ix != n {
        assert(s[ix].path@ == rec.path@);
        assert(has_record(s, rec.path@));
        assert(false);
    }
    assert forall|k: Seq<char>| k != rec.path@ implies (has_record(t, k) <==> has_record(s, k)) by {
        if has_record(t, k) {
            let j = choose|j: int| 0 <= j < t.len() && t[j].path@ == k;
            assert(j != n);
            assert(s[j].path@ == k);
        }
        if has_record(s, k) {
            let j = choose|j: int| 0 <= j < s.len() && s[j].path@ == k;
            assert(t[j].path@ == k);
        }
    }
    assert forall|k: Seq<char>| k != rec.path@ && has_record(s, k) implies record_at(t, k)
        == record_at(s, k) by {
        let js = record_index(s, k);
        assert(s[js].path@ == k);
        assert(t[js].path@ == k);
        assert(has_record(t, k));
        let jt = record_index(t, k);
        assert(t[jt].path@ == k);
        if jt != js {
            if jt == n {
                assert(false);
            }
            assert(s[jt].path@ == k);
            assert(false);
        }
    }
}

/// Extending the kept prefix by one record appends it when its flag is
/// set and changes nothing otherwise.
proof fn lemma_keep_flagged_prefix(s: Seq<ProcessedFile>, flags: Seq<bool>, i: int)
    requires
        0 <= i < s.len(),
        flags.len() == s.len(),
    ensures
        flags[i] ==> keep_flagged(s.take(i + 1), flags) == keep_flagged(s.take(i), flags) + seq![
            s[i],
        ],
        !flags[i] ==> keep_flagged(s.take(i + 1), flags) == keep_flagged(s.take(i), flags),
{
    assert(s.take(i + 1).drop_last() =~= s.take(i));
    assert(s.take(i + 1).last() == s[i]);
}

/// Every survivor of a cleanup pass is one of the original records.
proof fn lemma_keep_flagged_from(s: Seq<ProcessedFile>, flags: Seq<bool>)
    ensures
        forall|j: int|
            #![trigger keep_flagged(s, flags)[j]]
            0 <= j < keep_flagged(s, flags).len() ==> exists|i: int|
                0 <= i < s.len() && s[i] == keep_flagged(s, flags)[j],
    decreases s.len(),
{
    if s.len() > 0 {
        lemma_keep_flagged_from(s.drop_last(), flags);
        assert forall|j: int|
            #![trigger keep_flagged(s, flags)[j]]
            0 <= j < keep_flagged(s, flags).len() implies exists|i: int|
                0 <= i < s.len() && s[i] == keep_flagged(s, flags)[j] by {
            let kp = keep_flagged(s.drop_last(), flags);
            let kept = keep_flagged(s, flags);
            if j < kp.len() {
                assert(kept[j] == kp[j]);
                let i = choose|i: int|
                    0 <= i < s.drop_last().len() && s.drop_last()[i] == kp[j];
                assert(s[i] == kept[j]);
            } else {
                assert(flags[s.len() - 1] && j == kp.len());
                assert(kept[j] == s.last());
                assert(s[s.len() - 1] == kept[j]);
            }
        }
    }
}

/// Cleanup keeps keys unique.
proof fn lemma_keep_flagged_wf(s: Seq<ProcessedFile>, flags: Seq<bool>)
    requires
        ledger_wf(s),
    ensures
        ledger_wf(keep_flagged(s, flags)),
    decreases s.len(),
{
    if s.len() > 0 {
        assert(ledger_wf(s.drop_last()));
        lemma_keep_flagged_wf(s.drop_last(), flags);
        lemma_keep_flagged_from(s.drop_last(), flags);
        let kp = keep_flagged(s.drop_last(), flags);
        let kept = keep_flagged(s, flags);
        if flags[s.len() - 1] {
            assert(kept == kp + seq![s.last()]);
            assert forall|a: int, b: int| 0 <= a < b < kept.len() implies kept[a].path@
                != kept[b].path@ by {
                if b < kp.len() {
                    assert(kp[a].path@ != kp[b].path@);
                } else {
                    assert(kept[b] == s.last());
                    assert(kept[a] == kp[a]);
                    let i = choose|i: int|
                        0 <= i < s.drop_last().len() && s.drop_last()[i] == kp[a];
                    assert(s[i] == kept[a]);
                    assert(s[i].path@ != s[s.len() - 1].path@);
                }
            }
        }
    }
}

/// Cleanup never grows the ledger.
proof fn lemma_keep_flagged_len(s: Seq<ProcessedFile>, flags: Seq<bool>)
    ensures
        keep_flagged(s, flags).len() <= s.len(),
    decreases s.len(),
{
    if s.len() > 0 {
        lemma_keep_flagged_len(s.drop_last(), flags);
    }
}

/// What SHA-256 returns for a byte sequence.
pub uninterp spec fn sha256_of(data: Seq<u8>) -> Seq<u8>;

/// Relies on sha2's `Sha256`: the digest is a function of the input bytes
/// alone and is 32 bytes long.
#[verifier::external_body]
fn sha256_digest(data: &[u8]) -> (r: Vec<u8>)
    ensures
        r@ == sha256_of(data@),
        r@.len() == 32,
{
    sha2::Sha256::digest(data).to_vec()
}

/// The lower-case hexadecimal digit for a value below sixteen.
pub open spec fn hex_digit(d: int) -> char {
    if d < 10 {
        crate::text::dec_digit(d)
    } else if d == 10 {
        'a'
    } else if d == 11 {
        'b'
    } else if d == 12 {
        'c'
    } else if d == 13 {
        'd'
    } else if d == 14 {
        'e'
    } else {
        'f'
    }
}

/// Lower-case hexadecimal rendering of a byte sequence: two digits per
/// byte, high nibble first.
pub open spec fn hex_chars(data: Seq<u8>) -> Seq<char>
    decreases data.len(),
{
    if data.len() == 0 {
        Seq::empty()
    } else {
        seq![hex_digit(data.first() as int / 16), hex_digit(data.first() as int % 16)] + hex_chars(
            data.drop_first(),
        )
    }
}

/// Relies on hex::encode: two lower-case hexadecimal digits per input
/// byte, high nibble first, from the table "0123456789abcdef".
#[verifier::external_body]
fn hex_encode(data: &[u8]) -> (r: String)
    ensures
        r@ == hex_chars(data@),
{
    hex::encode(data)
}

/// The name of the ledger file for a root directory whose canonicalized
/// path reads `root`: a fixed prefix, sixteen hex digits of the root's
/// SHA-256, and the JSON suffix.
pub open spec fn ledger_file_chars(root: Seq<char>) -> Seq<char> {
    "processed_files_"@ + hex_chars(sha256_of(encode_utf8(root)).take(8)) + ".json"@
}

/// Derive the ledger file name for a canonicalized root path. The
/// location is derived, never configured: one file per distinct root.
pub fn ledger_file_name(root: &str) -> (r: String)
    ensures
        r@ == ledger_file_chars(root@),
{
    let digest = sha256_digest(root.as_bytes());
    let mut prefix_bytes: Vec<u8> = Vec::new();
    let mut i: usize = 0;
    while i < 8
        invariant
            i <= 8,
            digest@.len() == 32,
            digest@ == sha256_of(encode_utf8(root@)),
            prefix_bytes@ == digest@.take(i as int),
        decreases 8 - i,
    {
        prefix_bytes.push(digest[i]);
        proof {
            assert(prefix_bytes@ =~= digest@.take(i + 1));
        }
        i = i + 1;
    }
    let hex16 = hex_encode(prefix_bytes.as_slice());
    let mut name = "processed_files_".to_owned();
    name.append(hex16.as_str());
    name.append(".json");
    name
}

/// The hex rendering is injective: equal renderings come only from equal
/// byte sequences.
pub proof fn lemma_hex_chars_injective(a: Seq<u8>, b: Seq<u8>)
    requires
        hex_chars(a) == hex_chars(b),
    ensures
        a == b,
    decreases a.len(),
{
    lemma_hex_chars_len(a);
    lemma_hex_chars_len(b);
    if a.len() == 0 {
        assert(b.len() == 0);
        assert(a =~= b);
    } else {
        assert(b.len() > 0);
        let ha = hex_chars(a);
        let hb = hex_chars(b);
        assert(ha[0] == hex_digit(a.first() as int / 16) && ha[1] == hex_digit(a.first() as int % 16));
        assert(hb[0] == hex_digit(b.first() as int / 16) && hb[1] == hex_digit(b.first() as int % 16));
        assert(a.first() as int / 16 == b.first() as int / 16 && a.first() as int % 16 == b.first() as int % 16) by {
            lemma_hex_digit_injective(a.first() as int / 16, b.first() as int / 16);
            lemma_hex_digit_injective(a.first() as int % 16, b.first() as int % 16);
        }
        assert(a.first() == b.first());
        assert(hex_chars(a.drop_first()) =~= ha.skip(2));
        assert(hex_chars(b.drop_first()) =~= hb.skip(2));
        lemma_hex_chars_injective(a.drop_first(), b.drop_first());
        assert(a =~= seq![a.first()] + a.drop_first());
        assert(b =~= seq![b.first()] + b.drop_first());
    }
}

/// Two hex digits agree only on the same value.
proof fn lemma_hex_digit_injective(x: int, y: int)
    requires
        0 <= x < 16,
        0 <= y < 16,
        hex_digit(x) == hex_digit(y),
    ensures
        x == y,
{
}

/// A byte sequence renders to twice as many hex digits.
pub proof fn lemma_hex_chars_len(data: Seq<u8>)
    ensures
        hex_chars(data).len() == 2 * data.len(),
    decreases data.len(),
{
    if data.len() > 0 {
        lemma_hex_chars_len(data.drop_first());
    }
}

/// Ledger files never collide across roots unless the hashes themselves
/// collide: two roots get the same ledger file name exactly when the
/// leading eight bytes of their canonical paths' SHA-256 digests agree.
pub proof fn lemma_ledger_names_collide_only_on_hash(root1: Seq<char>, root2: Seq<char>)
    requires
        sha256_of(encode_utf8(root1)).len() == 32,
        sha256_of(encode_utf8(root2)).len() == 32,
    ensures
        ledger_file_chars(root1) == ledger_file_chars(root2) <==> sha256_of(
            encode_utf8(root1),
        ).take(8) == sha256_of(encode_utf8(root2)).take(8),
{
    let d1 = sha256_of(encode_utf8(root1)).take(8);
    let d2 = sha256_of(encode_utf8(root2)).take(8);
    let h1 = hex_chars(d1);
    let h2 = hex_chars(d2);
    lemma_hex_chars_len(d1);
    lemma_hex_chars_len(d2);
    if ledger_file_chars(root1) == ledger_file_chars(root2) {
        let p = "processed_files_"@;
        let s = ".json"@;
        assert(h1 =~= (p + h1 + s).subrange(p.len() as int, p.len() as int + 16));
        assert(h2 =~= (p + h2 + s).subrange(p.len() as int, p.len() as int + 16));
        assert(h1 == h2);
        lemma_hex_chars_injective(d1, d2);
    }
    if d1 == d2 {
        assert(ledger_file_chars(root1) == ledger_file_chars(root2));
    }
}

} // verus!
