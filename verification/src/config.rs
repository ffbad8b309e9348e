//! Per-run configuration: quality knobs, worker budget, output mode, the
//! size-replacement threshold, and the per-class time budgets.
//!
//! The threshold and all derived ratios are held in thousandths so that
//! every decision over them is exact integer arithmetic.

use vstd::prelude::*;

use crate::error::OptimizeError;
use crate::paths::DirPath;

verus! {

/// One thumbnail rendition's frame size.
#[derive(Debug, Clone, Copy, PartialEq, Eq, Structural)]
pub struct ThumbnailSize {
    pub width: u32,
    pub height: u32,
}

/// Immutable settings for one optimization run. Validated once at start;
/// a rejected value aborts the run before any file is touched.
#[derive(Debug, Clone)]
pub struct Config {
    /// JPEG quality (1-100).
    pub jpeg_quality: u8,
    /// Video CRF value (0-51, lower means better quality).
    pub video_crf: u8,
    /// Video audio bitrate, e.g. "128k".
    pub audio_bitrate: String,
    /// Replacement threshold in thousandths of the original size: a result
    /// is kept in place only when `optimized * 1000 < original * threshold`.
    pub size_threshold_permille: u32,
    /// Decide and report, but mutate nothing.
    pub dry_run: bool,
    /// Total worker budget for the scheduler.
    pub workers: usize,
    /// Output tree for optimized files; in-place replacement when absent.
    pub output_path: Option<DirPath>,
    /// Convert every image to WebP.
    pub convert_to_webp: bool,
    /// WebP quality (1-100).
    pub webp_quality: u8,
    /// In output-directory mode, skip files whose output already exists.
    pub keep_processed: bool,
    /// Copy videos to the output instead of compressing them.
    pub skip_video_compression: bool,
    /// Emit line-delimited structured events instead of progress text.
    pub json_output: bool,
    /// Time budget for a small-class file, in seconds.
    pub small_timeout_secs: u64,
    /// Time budget for a medium-class file, in seconds.
    pub medium_timeout_secs: u64,
    /// Time budget for a large-class file, in seconds.
    pub large_timeout_secs: u64,
    /// Time budget for a video, in seconds.
    pub video_timeout_secs: u64,
    /// Thumbnail renditions to cut, by name; none by default.
    pub thumbnails: Vec<(String, ThumbnailSize)>,
}

/// The conditions `validate` enforces. Whether a configured output path
/// exists on disk is checked by the caller, not here.
pub open spec fn config_valid(c: &Config) -> bool {
    &&& 1 <= c.jpeg_quality <= 100
    &&& 1 <= c.webp_quality <= 100
    &&& c.video_crf <= 51
    &&& 0 < c.size_threshold_permille <= 1000
    &&& c.workers >= 1
}

impl Default for Config {
    /// The documented defaults: JPEG quality 80, CRF 26, 128k audio,
    /// a 0.9 replacement threshold, four workers, in-place mode, and the
    /// per-class time budgets of two, five, twenty and fifteen minutes.
    fn default() -> (r: Config)
        ensures
            r.jpeg_quality == 80,
            r.video_crf == 26,
            r.audio_bitrate@ == "128k"@,
            r.size_threshold_permille == 900,
            !r.dry_run,
            r.workers == 4,
            r.output_path is None,
            !r.convert_to_webp,
            r.webp_quality == 80,
            !r.keep_processed,
            !r.skip_video_compression,
            !r.json_output,
            r.small_timeout_secs == 120,
            r.medium_timeout_secs == 300,
            r.large_timeout_secs == 1200,
            r.video_timeout_secs == 900,
            r.thumbnails@.len() == 0,
            config_valid(&r),
    {
        Config {
            jpeg_quality: 80,
            video_crf: 26,
            audio_bitrate: "128k".to_owned(),
            size_threshold_permille: 900,
            dry_run: false,
            workers: 4,
            output_path: None,
            convert_to_webp: false,
            webp_quality: 80,
            keep_processed: false,
            skip_video_compression: false,
            json_output: false,
            small_timeout_secs: 120,
            medium_timeout_secs: 300,
            large_timeout_secs: 1200,
            video_timeout_secs: 900,
            thumbnails: Vec::new(),
        }
    }
}

impl Config {
    /// Accepts exactly the configurations `config_valid` describes, and
    /// names the first knob that is out of range otherwise.
    pub fn validate(&self) -> (r: Result<(), OptimizeError>)
        ensures
            r is Ok <==> config_valid(self),
            !(1 <= self.jpeg_quality <= 100) ==> (r matches Err(
                OptimizeError::Validation(m),
            ) && m@ == "JPEG quality must be between 1 and 100"@),
            (1 <= self.jpeg_quality <= 100 && !(1 <= self.webp_quality <= 100)) ==> (
            r matches Err(OptimizeError::Validation(m)) && m@
                == "WebP quality must be between 1 and 100"@),
            (1 <= self.jpeg_quality <= 100 && 1 <= self.webp_quality <= 100
                && self.video_crf > 51) ==> (r matches Err(OptimizeError::Validation(m)) && m@
                == "Video CRF must be between 0 and 51"@),
            (1 <= self.jpeg_quality <= 100 && 1 <= self.webp_quality <= 100 && self.video_crf <= 51
                && !(0 < self.size_threshold_permille <= 1000)) ==> (r matches Err(
                OptimizeError::Validation(m),
            ) && m@ == "Size threshold must be between 0.0 and 1.0"@),
            (1 <= self.jpeg_quality <= 100 && 1 <= self.webp_quality <= 100 && self.video_crf <= 51
                && 0 < self.size_threshold_permille <= 1000 && self.workers == 0) ==> (r matches Err(
                OptimizeError::Validation(m),
            ) && m@ == "Number of workers must be greater than 0"@),
    {
        if self.jpeg_quality == 0 || self.jpeg_quality > 100 {
            return Err(OptimizeError::Validation(
                "JPEG quality must be between 1 and 100".to_owned(),
            ));
        }
        if self.webp_quality == 0 || self.webp_quality > 100 {
            return Err(OptimizeError::Validation(
                "WebP quality must be between 1 and 100".to_owned(),
            ));
        }
        if self.video_crf > 51 {
            return Err(OptimizeError::Validation(
                "Video CRF must be between 0 and 51".to_owned(),
            ));
        }
        if self.size_threshold_permille == 0 || self.size_threshold_permille > 1000 {
            return Err(OptimizeError::Validation(
                "Size threshold must be between 0.0 and 1.0".to_owned(),
            ));
        }
        if self.workers == 0 {
            return Err(OptimizeError::Validation(
                "Number of workers must be greater than 0".to_owned(),
            ));
        }
        Ok(())
    }

    /// Whether results go to a separate output tree rather than replacing
    /// originals in place.
    pub fn output_mode(&self) -> (r: bool)
        ensures
            r == self.output_path is Some,
    {
        self.output_path.is_some()
    }
}

/// The configuration subset echoed in the structured `start` event.
#[derive(Debug, Clone)]
pub struct JsonConfig {
    pub jpeg_quality: u8,
    pub video_crf: u8,
    pub workers: usize,
    pub convert_to_webp: bool,
    pub webp_quality: u8,
    pub dry_run: bool,
}

impl JsonConfig {
    /// The fields of `config` that the event protocol echoes back.
    pub fn from_config(config: &Config) -> (r: JsonConfig)
        ensures
            r.jpeg_quality == config.jpeg_quality,
            r.video_crf == config.video_crf,
            r.workers == config.workers,
            r.convert_to_webp == config.convert_to_webp,
            r.webp_quality == config.webp_quality,
            r.dry_run == config.dry_run,
    {
        JsonConfig {
            jpeg_quality: config.jpeg_quality,
            video_crf: config.video_crf,
            workers: config.workers,
            convert_to_webp: config.convert_to_webp,
            webp_quality: config.webp_quality,
            dry_run: config.dry_run,
        }
    }
}

} // verus!
