//! File classification and size arithmetic: which extensions are media,
//! which of those are images or videos, human-readable sizes, and the
//! reduction measure recorded for every processed file.

use vstd::prelude::*;

use crate::paths::FilePath;
use crate::text::{
    dec_str, matches_lower, two_digit_str, u64_to_string, u64_to_two_digits,
};

verus! {

/// An extension that reads as one of the supported image formats,
/// ignoring ASCII case.
pub open spec fn is_image_ext(e: Seq<char>) -> bool {
    ||| matches_lower(e, "jpg"@)
    ||| matches_lower(e, "jpeg"@)
    ||| matches_lower(e, "png"@)
    ||| matches_lower(e, "webp"@)
}

/// An extension that reads as one of the supported video containers,
/// ignoring ASCII case.
pub open spec fn is_video_ext(e: Seq<char>) -> bool {
    ||| matches_lower(e, "mp4"@)
    ||| matches_lower(e, "mov"@)
    ||| matches_lower(e, "avi"@)
    ||| matches_lower(e, "mkv"@)
    ||| matches_lower(e, "webm"@)
}

/// A path naming an image file: it has an extension and that extension is
/// an image format.
pub open spec fn is_image_path(p: &FilePath) -> bool {
    match p.ext {
        Some(e) => is_image_ext(e@),
        None => false,
    }
}

/// A path naming a video file.
pub open spec fn is_video_path(p: &FilePath) -> bool {
    match p.ext {
        Some(e) => is_video_ext(e@),
        None => false,
    }
}

/// The reduction a processed file achieved, in thousandths of the
/// original size: zero when nothing was saved (or the file grew), and
/// `(original - optimized) * 1000 / original` otherwise.
pub open spec fn reduction_permille_spec(original: nat, optimized: nat) -> nat {
    if original == 0 || optimized >= original {
        0
    } else {
        (((original - optimized) * 1000) / (original as int)) as nat
    }
}

/// File discovery support and size presentation.
pub struct FileManager;

impl FileManager {
    /// Whether the extension marks a file this crate processes at all.
    pub fn is_supported_format(path: &FilePath) -> (r: bool)
        ensures
            r == (is_image_path(path) || is_video_path(path)),
    {
        Self::is_image(path) || Self::is_video(path)
    }

    /// Whether the extension marks an image.
    pub fn is_image(path: &FilePath) -> (r: bool)
        ensures
            r == is_image_path(path),
    {
        match &path.ext {
            Some(e) => {
                let s = e.as_str();
                crate::text::eq_ignore_ascii_upper(s, "jpg")
                    || crate::text::eq_ignore_ascii_upper(s, "jpeg")
                    || crate::text::eq_ignore_ascii_upper(s, "png")
                    || crate::text::eq_ignore_ascii_upper(s, "webp")
            },
            None => false,
        }
    }

    /// Whether the extension marks a video.
    pub fn is_video(path: &FilePath) -> (r: bool)
        ensures
            r == is_video_path(path),
    {
        match &path.ext {
            Some(e) => {
                let s = e.as_str();
                crate::text::eq_ignore_ascii_upper(s, "mp4")
                    || crate::text::eq_ignore_ascii_upper(s, "mov")
                    || crate::text::eq_ignore_ascii_upper(s, "avi")
                    || crate::text::eq_ignore_ascii_upper(s, "mkv")
                    || crate::text::eq_ignore_ascii_upper(s, "webm")
            },
            None => false,
        }
    }

    /// The reduction in thousandths; see [`reduction_permille_spec`].
    pub fn calculate_reduction(original_size: u64, new_size: u64) -> (r: u64)
        ensures
            r == reduction_permille_spec(original_size as nat, new_size as nat),
            r <= 1000,
    {
        if original_size == 0 || new_size >= original_size {
            0
        } else {
            let saved: u128 = (original_size - new_size) as u128;
            let scaled: u128 = saved * 1000;
            let out: u128 = scaled / (original_size as u128);
            proof {
                assert(out <= 1000) by (nonlinear_arith)
                    requires
                        scaled == saved * 1000,
                        out == scaled / (original_size as u128),
                        0 < original_size,
                        saved <= original_size,
                ;
            }
            out as u64
        }
    }

    /// Human-readable size with the largest unit that keeps the value at
    /// least one, and two decimals for every unit above bytes.
    pub fn format_size(size: u64) -> (r: String)
        ensures
            r@ == format_size_chars(size as nat),
    {
        if size < 1024 {
            let mut s = u64_to_string(size);
            s.append(" B");
            proof { reveal_strlit(" B"); }
            s
        } else if size < 1048576 {
            Self::format_scaled(size, 1024, " KB")
        } else if size < 1073741824 {
            Self::format_scaled(size, 1048576, " MB")
        } else if size < 1099511627776 {
            Self::format_scaled(size, 1073741824, " GB")
        } else {
            Self::format_scaled(size, 1099511627776, " TB")
        }
    }

    fn format_scaled(size: u64, unit_bytes: u64, unit_label: &str) -> (r: String)
        requires
            unit_bytes >= 1024,
        ensures
            r@ == scaled_hundredths_chars(size as nat * 100 / unit_bytes as nat) + unit_label@,
    {
        let hundredths_wide: u128 = (size as u128) * 100 / (unit_bytes as u128);
        proof {
            assert(hundredths_wide <= u64::MAX) by (nonlinear_arith)
                requires
                    hundredths_wide == size as int * 100 / (unit_bytes as int),
                    size <= u64::MAX,
                    unit_bytes >= 1024,
            ;
        }
        let hundredths: u64 = hundredths_wide as u64;
        let mut s = u64_to_string(hundredths / 100);
        s.append(".");
        let frac = u64_to_two_digits(hundredths % 100);
        s.append(frac.as_str());
        s.append(unit_label);
        proof {
            reveal_strlit(".");
        }
        s
    }
}

/// The two-decimal rendering of a value held in hundredths.
pub open spec fn scaled_hundredths_chars(h: nat) -> Seq<char> {
    dec_str(h / 100) + "."@ + two_digit_str((h % 100) as int)
}

/// What [`FileManager::format_size`] renders for a byte count.
pub open spec fn format_size_chars(size: nat) -> Seq<char> {
    if size < 1024 {
        dec_str(size) + " B"@
    } else if size < 1048576 {
        scaled_hundredths_chars(size * 100 / 1024) + " KB"@
    } else if size < 1073741824 {
        scaled_hundredths_chars(size * 100 / 1048576) + " MB"@
    } else if size < 1099511627776 {
        scaled_hundredths_chars(size * 100 / 1073741824) + " GB"@
    } else {
        scaled_hundredths_chars(size * 100 / 1099511627776) + " TB"@
    }
}

} // verus!
