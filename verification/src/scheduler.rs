//! The resource-classified scheduler.
//!
//! Every discovered file is classified once: videos form their own
//! always-serial class, and other files fall into small, medium or large
//! by byte size. A class grants a bounded number of permits; a large file
//! additionally drains whatever is free of a general-purpose pool sized
//! by the worker budget, so that its processing window blocks as many new
//! tasks as there is headroom. The accounting here is a pure state
//! machine; the surrounding process suspends tasks until an acquisition
//! succeeds and releases every grant when a task's scope ends.

use vstd::prelude::*;

use crate::config::Config;
use crate::paths::FilePath;

verus! {

/// Bytes below which a non-video file is small.
pub const SMALL_CLASS_LIMIT_BYTES: u64 = 5 * 1024 * 1024;

/// Bytes below which a non-video file is medium; at or above, large.
pub const MEDIUM_CLASS_LIMIT_BYTES: u64 = 20 * 1024 * 1024;

/// The size bucket of a non-video file.
#[derive(Debug, Clone, Copy, PartialEq, Eq, Structural)]
pub enum FileSize {
    Small,
    Medium,
    Large,
}

/// The medium-class permit bound: half the worker budget, at least one.
pub open spec fn medium_limit(workers: int) -> int {
    if workers / 2 >= 1 {
        workers / 2
    } else {
        1
    }
}

impl FileSize {
    /// The bucket for a byte count: small below 5 MiB, medium below
    /// 20 MiB, large otherwise.
    pub fn classify(size_bytes: u64) -> (r: FileSize)
        ensures
            r == FileSize::Small <==> size_bytes < SMALL_CLASS_LIMIT_BYTES,
            r == FileSize::Medium <==> (SMALL_CLASS_LIMIT_BYTES <= size_bytes
                < MEDIUM_CLASS_LIMIT_BYTES),
            r == FileSize::Large <==> size_bytes >= MEDIUM_CLASS_LIMIT_BYTES,
    {
        if size_bytes < SMALL_CLASS_LIMIT_BYTES {
            FileSize::Small
        } else if size_bytes < MEDIUM_CLASS_LIMIT_BYTES {
            FileSize::Medium
        } else {
            FileSize::Large
        }
    }

    /// How many workers this bucket may occupy at once out of a budget:
    /// all of them for small files, half (at least one) for medium, one
    /// for large.
    pub fn max_concurrent(&self, total_workers: usize) -> (r: usize)
        ensures
            self is Small ==> r == total_workers,
            self is Medium ==> r == medium_limit(total_workers as int),
            self is Large ==> r == 1,
    {
        match self {
            FileSize::Small => total_workers,
            FileSize::Medium => {
                let half = total_workers / 2;
                if half >= 1 {
                    half
                } else {
                    1
                }
            },
            FileSize::Large => 1,
        }
    }

    /// The bucket's name for logging.
    pub fn description(&self) -> (r: &'static str)
        ensures
            self is Small ==> r@ == "small (<5MB)"@,
            self is Medium ==> r@ == "medium (5-20MB)"@,
            self is Large ==> r@ == "large (>20MB)"@,
    {
        match self {
            FileSize::Small => "small (<5MB)",
            FileSize::Medium => "medium (5-20MB)",
            FileSize::Large => "large (>20MB)",
        }
    }
}

/// The concurrency class a task competes in: the three size buckets, or
/// the always-serial video class.
#[derive(Debug, Clone, Copy, PartialEq, Eq, Structural)]
pub enum ConcurrencyClass {
    Small,
    Medium,
    Large,
    Video,
}

/// The class of a file: video by kind, else by byte size.
pub open spec fn class_of(is_video: bool, size_bytes: u64) -> ConcurrencyClass {
    if is_video {
        ConcurrencyClass::Video
    } else if size_bytes < SMALL_CLASS_LIMIT_BYTES {
        ConcurrencyClass::Small
    } else if size_bytes < MEDIUM_CLASS_LIMIT_BYTES {
        ConcurrencyClass::Medium
    } else {
        ConcurrencyClass::Large
    }
}

impl ConcurrencyClass {
    /// Classify a file for scheduling.
    pub fn for_file(path: &FilePath, size_bytes: u64) -> (r: ConcurrencyClass)
        ensures
            r == class_of(crate::file_manager::is_video_path(path), size_bytes),
    {
        if crate::file_manager::FileManager::is_video(path) {
            ConcurrencyClass::Video
        } else {
            match FileSize::classify(size_bytes) {
                FileSize::Small => ConcurrencyClass::Small,
                FileSize::Medium => ConcurrencyClass::Medium,
                FileSize::Large => ConcurrencyClass::Large,
            }
        }
    }

    /// The running-time budget the configuration gives this class.
    pub fn timeout_secs(&self, config: &Config) -> (r: u64)
        ensures
            self is Small ==> r == config.small_timeout_secs,
            self is Medium ==> r == config.medium_timeout_secs,
            self is Large ==> r == config.large_timeout_secs,
            self is Video ==> r == config.video_timeout_secs,
    {
        match self {
            ConcurrencyClass::Small => config.small_timeout_secs,
            ConcurrencyClass::Medium => config.medium_timeout_secs,
            ConcurrencyClass::Large => config.large_timeout_secs,
            ConcurrencyClass::Video => config.video_timeout_secs,
        }
    }
}

/// What one successful acquisition handed out; it is surrendered whole
/// when the task's scope ends.
#[derive(Debug, Clone, Copy)]
pub enum PermitGrant {
    Small,
    Medium,
    /// A large grant also drains the general-purpose pool; `drained` is
    /// how many of its permits were free and are now held.
    Large { drained: usize },
    Video,
}

/// The permit accounting of one run: how many slots of each class are
/// held, and how much of the general-purpose pool remains.
#[derive(Debug, Clone, Copy)]
pub struct SchedulerState {
    /// The worker budget the run was configured with.
    pub workers: usize,
    pub small_in_use: usize,
    pub medium_in_use: usize,
    pub large_in_use: usize,
    pub video_in_use: usize,
    /// Free permits of the general-purpose pool (sized `workers`).
    pub global_available: usize,
}

impl SchedulerState {
    /// The accounting invariant: every class is within its bound and the
    /// general-purpose pool never exceeds its size.
    pub open spec fn wf(&self) -> bool {
        &&& self.workers >= 1
        &&& self.small_in_use <= self.workers
        &&& self.medium_in_use <= medium_limit(self.workers as int)
        &&& self.large_in_use <= 1
        &&& self.video_in_use <= 1
        &&& self.global_available <= self.workers
    }

    /// A fresh run: nothing held, the whole general-purpose pool free.
    pub fn new(workers: usize) -> (r: SchedulerState)
        requires
            workers >= 1,
        ensures
            r.wf(),
            r.workers == workers,
            r.small_in_use == 0,
            r.medium_in_use == 0,
            r.large_in_use == 0,
            r.video_in_use == 0,
            r.global_available == workers,
    {
        SchedulerState {
            workers,
            small_in_use: 0,
            medium_in_use: 0,
            large_in_use: 0,
            video_in_use: 0,
            global_available: workers,
        }
    }

    /// Try to take a permit of `class`. `None` means the class is at its
    /// bound and the caller must suspend and retry; acquisition never
    /// fails otherwise. A large grant also drains every free
    /// general-purpose permit, so the large file's window blocks as many
    /// new tasks as there was headroom.
    pub fn try_acquire(&mut self, class: ConcurrencyClass) -> (r: Option<PermitGrant>)
        requires
            old(self).wf(),
        ensures
            final(self).wf(),
            final(self).workers == old(self).workers,
            match r {
                Some(PermitGrant::Small) => class is Small && *final(self) == SchedulerState {
                    small_in_use: (old(self).small_in_use + 1) as usize,
                    ..*old(self)
                },
                Some(PermitGrant::Medium) => class is Medium && *final(self) == SchedulerState {
                    medium_in_use: (old(self).medium_in_use + 1) as usize,
                    ..*old(self)
                },
                Some(PermitGrant::Large { drained }) => class is Large && drained == old(
                    self,
                ).global_available && *final(self) == SchedulerState {
                    large_in_use: (old(self).large_in_use + 1) as usize,
                    global_available: 0,
                    ..*old(self)
                },
                Some(PermitGrant::Video) => class is Video && *final(self) == SchedulerState {
                    video_in_use: (old(self).video_in_use + 1) as usize,
                    ..*old(self)
                },
                None => *final(self) == *old(self),
            },
            r is None <==> match class {
                ConcurrencyClass::Small => old(self).small_in_use == old(self).workers,
                ConcurrencyClass::Medium => old(self).medium_in_use == medium_limit(
                    old(self).workers as int,
                ),
                ConcurrencyClass::Large => old(self).large_in_use == 1,
                ConcurrencyClass::Video => old(self).video_in_use == 1,
            },
    {
        match class {
            ConcurrencyClass::Small => {
                if self.small_in_use < self.workers {
                    self.small_in_use = self.small_in_use + 1;
                    Some(PermitGrant::Small)
                } else {
                    None
                }
            },
            ConcurrencyClass::Medium => {
                let limit = FileSize::Medium.max_concurrent(self.workers);
                if self.medium_in_use < limit {
                    self.medium_in_use = self.medium_in_use + 1;
                    Some(PermitGrant::Medium)
                } else {
                    None
                }
            },
            ConcurrencyClass::Large => {
                if self.large_in_use < 1 {
                    self.large_in_use = self.large_in_use + 1;
                    let drained = self.global_available;
                    self.global_available = 0;
                    Some(PermitGrant::Large { drained })
                } else {
                    None
                }
            },
            ConcurrencyClass::Video => {
                if self.video_in_use < 1 {
                    self.video_in_use = self.video_in_use + 1;
                    Some(PermitGrant::Video)
                } else {
                    None
                }
            },
        }
    }

    /// Whether `grant` can be one that this state handed out and has not
    /// yet taken back.
    pub open spec fn grant_outstanding(&self, grant: PermitGrant) -> bool {
        match grant {
            PermitGrant::Small => self.small_in_use >= 1,
            PermitGrant::Medium => self.medium_in_use >= 1,
            PermitGrant::Large { drained } => self.large_in_use >= 1 && self.global_available
                + drained <= self.workers,
            PermitGrant::Video => self.video_in_use >= 1,
        }
    }

    /// Give back everything `grant` held: the class slot, and for a large
    /// grant also the drained general-purpose permits.
    pub fn release(&mut self, grant: PermitGrant)
        requires
            old(self).wf(),
            old(self).grant_outstanding(grant),
        ensures
            final(self).wf(),
            final(self).workers == old(self).workers,
            match grant {
                PermitGrant::Small => *final(self) == SchedulerState {
                    small_in_use: (old(self).small_in_use - 1) as usize,
                    ..*old(self)
                },
                PermitGrant::Medium => *final(self) == SchedulerState {
                    medium_in_use: (old(self).medium_in_use - 1) as usize,
                    ..*old(self)
                },
                PermitGrant::Large { drained } => *final(self) == SchedulerState {
                    large_in_use: (old(self).large_in_use - 1) as usize,
                    global_available: (old(self).global_available + drained) as usize,
                    ..*old(self)
                },
                PermitGrant::Video => *final(self) == SchedulerState {
                    video_in_use: (old(self).video_in_use - 1) as usize,
                    ..*old(self)
                },
            },
    {
        match grant {
            PermitGrant::Small => {
                self.small_in_use = self.small_in_use - 1;
            },
            PermitGrant::Medium => {
                self.medium_in_use = self.medium_in_use - 1;
            },
            PermitGrant::Large { drained } => {
                self.large_in_use = self.large_in_use - 1;
                self.global_available = self.global_available + drained;
            },
            PermitGrant::Video => {
                self.video_in_use = self.video_in_use - 1;
            },
        }
    }
}

/// Concurrency class invariant: in any reachable accounting state, at
/// most one large-class task and at most one video-class task hold a
/// permit, so no two large files and no two videos ever run their encoder
/// step at the same time. Acquisition and release preserve `wf`, so this
/// holds at every point of a run.
pub proof fn lemma_exclusive_classes(s: SchedulerState)
    requires
        s.wf(),
    ensures
        s.large_in_use <= 1,
        s.video_in_use <= 1,
{
}

/// How many files of each class a discovery list holds, for the size
/// distribution report: (small, medium, large, video).
pub open spec fn class_counts(files: Seq<(u64, bool)>) -> (int, int, int, int)
    decreases files.len(),
{
    if files.len() == 0 {
        (0, 0, 0, 0)
    } else {
        let (s, m, l, v) = class_counts(files.drop_last());
        let (size, is_video) = files.last();
        match class_of(is_video, size) {
            ConcurrencyClass::Small => (s + 1, m, l, v),
            ConcurrencyClass::Medium => (s, m + 1, l, v),
            ConcurrencyClass::Large => (s, m, l + 1, v),
            ConcurrencyClass::Video => (s, m, l, v + 1),
        }
    }
}

/// Count the files of each class in a discovery list, given each file's
/// byte size and whether it is a video: (small, medium, large, video).
pub fn count_classes(files: &Vec<(u64, bool)>) -> (r: (usize, usize, usize, usize))
    ensures
        (r.0 as int, r.1 as int, r.2 as int, r.3 as int) == class_counts(files@),
{
    let mut small: usize = 0;
    let mut medium: usize = 0;
    let mut large: usize = 0;
    let mut video: usize = 0;
    let n = files.len();
    let mut i: usize = 0;
    while i < n
        invariant
            i <= n,
            n == files@.len(),
            small + medium + large + video == i,
            (small as int, medium as int, large as int, video as int) == class_counts(
                files@.take(i as int),
            ),
        decreases n - i,
    {
        let (size, is_video) = files[i];
        if is_video {
            video = video + 1;
        } else if size < SMALL_CLASS_LIMIT_BYTES {
            small = small + 1;
        } else if size < MEDIUM_CLASS_LIMIT_BYTES {
            medium = medium + 1;
        } else {
            large = large + 1;
        }
        proof {
            assert(files@.take(i + 1).drop_last() =~= files@.take(i as int));
            assert(files@.take(i + 1).last() == files@[i as int]);
        }
        i = i + 1;
    }
    proof {
        assert(files@.take(n as int) =~= files@);
    }
    (small, medium, large, video)
}

} // verus!
