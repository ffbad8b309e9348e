//! Thumbnail planning: resize algorithms and modes, thumbnail locations
//! under the output tree, and the exact command lines for the resize
//! tools. Running the tools, and the cancellation signal polled between
//! files, live outside this crate.

use vstd::prelude::*;

use crate::config::{Config, ThumbnailSize};
use crate::file_manager::is_image_path;
use crate::paths::{DirPath, FilePath};
use crate::resolver::relative_dir;
use crate::text::{dec_str, ends_with_spec, str_ends_with, u64_to_string};

verus! {

/// The resampling filter handed to the resize tool.
#[derive(Debug, Clone, Copy, PartialEq, Eq, Structural)]
pub enum ResizeAlgorithm {
    /// Best quality for downscaling; the thumbnail default.
    Lanczos,
    /// A good balance of quality and speed.
    Mitchell,
    /// Catmull-Rom, good general quality.
    Catrom,
    /// Fast, acceptable for quick previews.
    Triangle,
    /// Pixel-exact, for upscaling pixel art.
    Point,
}

impl Default for ResizeAlgorithm {
    /// Lanczos.
    fn default() -> (r: ResizeAlgorithm)
        ensures
            r is Lanczos,
    {
        ResizeAlgorithm::Lanczos
    }
}

impl ResizeAlgorithm {
    /// The ImageMagick filter name.
    pub fn to_imagemagick_filter(&self) -> (r: &'static str)
        ensures
            self is Lanczos ==> r@ == "Lanczos"@,
            self is Mitchell ==> r@ == "Mitchell"@,
            self is Catrom ==> r@ == "Catrom"@,
            self is Triangle ==> r@ == "Triangle"@,
            self is Point ==> r@ == "Point"@,
    {
        match self {
            ResizeAlgorithm::Lanczos => "Lanczos",
            ResizeAlgorithm::Mitchell => "Mitchell",
            ResizeAlgorithm::Catrom => "Catrom",
            ResizeAlgorithm::Triangle => "Triangle",
            ResizeAlgorithm::Point => "Point",
        }
    }
}

/// How the aspect ratio is handled.
#[derive(Debug, Clone, Copy, PartialEq, Eq, Structural)]
pub enum ResizeMode {
    /// Fit within the frame, keeping the aspect ratio.
    Fit,
    /// Fill the frame, cropping at the center.
    Fill,
    /// Stretch to the exact frame.
    Stretch,
}

impl Default for ResizeMode {
    /// Fit.
    fn default() -> (r: ResizeMode)
        ensures
            r is Fit,
    {
        ResizeMode::Fit
    }
}

/// The ImageMagick geometry for a mode and frame: bare for fit, with the
/// fill marker, or with the exact-size marker.
pub open spec fn geometry_chars(mode: ResizeMode, width: nat, height: nat) -> Seq<char> {
    let base = dec_str(width) + "x"@ + dec_str(height);
    match mode {
        ResizeMode::Fit => base,
        ResizeMode::Fill => base + "^"@,
        ResizeMode::Stretch => base + "!"@,
    }
}

impl ResizeMode {
    /// The ImageMagick geometry string for a frame under this mode.
    pub fn to_imagemagick_geometry(&self, width: u32, height: u32) -> (r: String)
        ensures
            r@ == geometry_chars(*self, width as nat, height as nat),
    {
        let mut s = u64_to_string(width as u64);
        s.append("x");
        s.append(u64_to_string(height as u64).as_str());
        proof {
            reveal_strlit("x");
        }
        match self {
            ResizeMode::Fit => s,
            ResizeMode::Fill => {
                s.append("^");
                s
            },
            ResizeMode::Stretch => {
                s.append("!");
                s
            },
        }
    }
}

/// Plans thumbnail renditions for one run: the configuration's rendition
/// list, the filter and mode, the rendition quality, and whether metadata
/// is stripped.
#[derive(Debug)]
pub struct ImageResizer {
    pub config: Config,
    pub algorithm: ResizeAlgorithm,
    pub mode: ResizeMode,
    pub jpeg_quality: u32,
    pub strip_metadata: bool,
}

/// The pre-shrink frame hint for large JPEG inputs: twice the longer
/// side, capped.
pub open spec fn jpeg_presize(size: ThumbnailSize) -> int {
    let longer = if size.width >= size.height {
        size.width
    } else {
        size.height
    };
    if longer * 2 > 2048 {
        2048
    } else {
        longer * 2
    }
}

/// The quality words appended for an output, by its extension: high for
/// JPEG renditions, fixed for WebP, nothing otherwise.
pub open spec fn magick_quality_chars(output: Seq<char>) -> Seq<Seq<char>> {
    if ends_with_spec(output, ".jpg"@) || ends_with_spec(output, ".jpeg"@) {
        seq!["-quality"@, "95"@]
    } else if ends_with_spec(output, ".webp"@) {
        seq!["-quality"@, "80"@]
    } else {
        Seq::empty()
    }
}

/// The whole ImageMagick thumbnail command: the input, a decode-size hint
/// for JPEG inputs, the fast filter and the mode's geometry, center
/// cropping under fill, bounded resources, the output's quality words,
/// and the output.
pub open spec fn magick_thumb_args_chars(
    mode: ResizeMode,
    size: ThumbnailSize,
    input: Seq<char>,
    output: Seq<char>,
) -> Seq<Seq<char>> {
    seq![input] + (if ends_with_spec(input, ".jpg"@) || ends_with_spec(input, ".jpeg"@) {
        seq![
            "-define"@,
            "jpeg:size="@ + dec_str(jpeg_presize(size) as nat) + "x"@ + dec_str(
                jpeg_presize(size) as nat,
            ),
        ]
    } else {
        Seq::empty()
    }) + seq!["-filter"@, "Mitchell"@, "-resize"@, geometry_chars(mode, size.width as nat, size.height as nat)]
        + (if mode is Fill {
        seq![
            "-gravity"@,
            "center"@,
            "-extent"@,
            dec_str(size.width as nat) + "x"@ + dec_str(size.height as nat),
        ]
    } else {
        Seq::empty()
    }) + seq!["-limit"@, "memory"@, "256MB"@, "-limit"@, "disk"@, "1GB"@, "-limit"@, "thread"@, "1"@]
        + magick_quality_chars(output) + seq![output]
}

/// The whole vips thumbnail command: thumbnail to the frame with the fast
/// kernel, the mode's cropping or stretching words, and the output's
/// quality words.
pub open spec fn vips_thumb_args_chars(
    mode: ResizeMode,
    size: ThumbnailSize,
    input: Seq<char>,
    output: Seq<char>,
) -> Seq<Seq<char>> {
    seq!["thumbnail"@, input, output, dec_str(size.width as nat), "--height"@, dec_str(size.height as nat), "--kernel"@, "mitchell"@]
        + (match mode {
        ResizeMode::Fit => Seq::empty(),
        ResizeMode::Fill => seq!["--crop"@, "centre"@],
        ResizeMode::Stretch => seq!["--no-rotate"@],
    }) + (if ends_with_spec(output, ".jpg"@) || ends_with_spec(output, ".jpeg"@) {
        seq!["--Q"@, "95"@]
    } else if ends_with_spec(output, ".webp"@) {
        seq!["--Q"@, "80"@]
    } else {
        Seq::empty()
    })
}

impl ImageResizer {
    /// A planner over the run configuration, with the rendition quality
    /// defaulting high.
    pub fn new(
        config: Config,
        algorithm: ResizeAlgorithm,
        mode: ResizeMode,
        jpeg_quality: Option<u32>,
        strip_metadata: bool,
    ) -> (r: ImageResizer)
        ensures
            r.config == config,
            r.algorithm == algorithm,
            r.mode == mode,
            r.jpeg_quality == match jpeg_quality {
                Some(q) => q,
                None => 85,
            },
            r.strip_metadata == strip_metadata,
    {
        let q = match jpeg_quality {
            Some(q) => q,
            None => 85,
        };
        ImageResizer { config, algorithm, mode, jpeg_quality: q, strip_metadata }
    }

    /// Whether a file can be resized: exactly the supported image
    /// formats.
    pub fn is_supported_for_resize(path: &FilePath) -> (r: bool)
        ensures
            r == is_image_path(path),
    {
        crate::file_manager::FileManager::is_image(path)
    }

    /// How many thumbnails a file list will produce: one per supported
    /// image per configured rendition (capped at the counter's range).
    pub fn estimate_thumbnail_count(&self, image_files: &Vec<FilePath>) -> (r: usize)
        ensures
            r == crate::orchestrator::sat_cap_usize(
                supported_count(image_files@) * self.config.thumbnails@.len(),
            ),
    {
        let n = image_files.len();
        let mut supported: usize = 0;
        let mut i: usize = 0;
        while i < n
            invariant
                i <= n,
                n == image_files@.len(),
                supported == supported_count(image_files@.take(i as int)),
                supported <= i,
            decreases n - i,
        {
            proof {
                assert(image_files@.take(i + 1).drop_last() =~= image_files@.take(i as int));
                assert(image_files@.take(i + 1).last() == image_files@[i as int]);
            }
            if Self::is_supported_for_resize(&image_files[i]) {
                supported = supported + 1;
            }
            i = i + 1;
        }
        proof {
            assert(image_files@.take(n as int) =~= image_files@);
        }
        let tn = self.config.thumbnails.len();
        proof {
            assert((supported as int) * (tn as int) <= u128::MAX) by (nonlinear_arith)
                requires
                    supported <= usize::MAX,
                    tn <= usize::MAX,
                    usize::MAX <= u64::MAX,
            ;
        }
        let total: u128 = (supported as u128) * (tn as u128);
        if total > usize::MAX as u128 {
            usize::MAX
        } else {
            total as usize
        }
    }

    /// Where one rendition of one image goes: under the output base, a
    /// fixed thumbnails directory, the rendition's name, then the image's
    /// placement relative to the input base; the stem is kept and the
    /// extension follows the conversion setting.
    pub fn get_thumbnail_path(
        &self,
        input_path: &FilePath,
        input_base_dir: &DirPath,
        output_base: &DirPath,
        thumbnail_name: &str,
    ) -> (r: FilePath)
        ensures
            r.dir@ == output_base@ + seq!["thumbnails"@, thumbnail_name@] + relative_dir(
                input_path.dir@,
                input_base_dir@,
            ),
            r.stem@ == input_path.stem@,
            r.ext matches Some(e) && e@ == (if self.config.convert_to_webp {
                "webp"@
            } else {
                match input_path.ext {
                    Some(x) => x@,
                    None => "jpg"@,
                }
            }),
    {
        let ext: String = if self.config.convert_to_webp {
            "webp".to_owned()
        } else {
            match &input_path.ext {
                Some(x) => x.clone(),
                None => "jpg".to_owned(),
            }
        };
        let mut mid: Vec<String> = Vec::new();
        mid.push("thumbnails".to_owned());
        mid.push(thumbnail_name.to_owned());
        let mid_dir = DirPath { comps: mid };
        proof {
            assert(mid_dir@ =~= seq!["thumbnails"@, thumbnail_name@]);
        }
        let rel: DirPath = if input_path.dir.starts_with(input_base_dir) {
            input_path.dir.skip_prefix(input_base_dir.comps.len())
        } else {
            input_path.dir.last_component()
        };
        let dir = output_base.join_dir(&mid_dir).join_dir(&rel);
        proof {
            assert(dir@ =~= output_base@ + seq!["thumbnails"@, thumbnail_name@] + relative_dir(
                input_path.dir@,
                input_base_dir@,
            ));
        }
        FilePath { dir, stem: input_path.stem.clone(), ext: Some(ext) }
    }

    /// The ImageMagick 7 command for one rendition.
    pub fn build_magick_args(&self, input: &str, output: &str, thumbnail_size: &ThumbnailSize) -> (r:
        Vec<String>)
        ensures
            r.deep_view() == magick_thumb_args_chars(self.mode, *thumbnail_size, input@, output@),
    {
        self.build_imagemagick_args(input, output, thumbnail_size)
    }

    /// The ImageMagick 6 command for one rendition; the words are the
    /// same, only the binary differs.
    pub fn build_convert_args(&self, input: &str, output: &str, thumbnail_size: &ThumbnailSize) -> (
        r: Vec<String>)
        ensures
            r.deep_view() == magick_thumb_args_chars(self.mode, *thumbnail_size, input@, output@),
    {
        self.build_imagemagick_args(input, output, thumbnail_size)
    }

    fn build_imagemagick_args(&self, input: &str, output: &str, thumbnail_size: &ThumbnailSize) -> (
        r: Vec<String>)
        ensures
            r.deep_view() == magick_thumb_args_chars(self.mode, *thumbnail_size, input@, output@),
    {
        let mut args: Vec<String> = Vec::new();
        args.push(input.to_owned());
        if str_ends_with(input, ".jpg") || str_ends_with(input, ".jpeg") {
            let longer = if thumbnail_size.width >= thumbnail_size.height {
                thumbnail_size.width
            } else {
                thumbnail_size.height
            };
            let pre: u64 = if (longer as u64) * 2 > 2048 {
                2048
            } else {
                (longer as u64) * 2
            };
            args.push("-define".to_owned());
            let mut hint = "jpeg:size=".to_owned();
            hint.append(u64_to_string(pre).as_str());
            hint.append("x");
            hint.append(u64_to_string(pre).as_str());
            proof {
                reveal_strlit("x");
            }
            args.push(hint);
        }
        args.push("-filter".to_owned());
        args.push("Mitchell".to_owned());
        args.push("-resize".to_owned());
        args.push(self.mode.to_imagemagick_geometry(thumbnail_size.width, thumbnail_size.height));
        match self.mode {
            ResizeMode::Fill => {
                args.push("-gravity".to_owned());
                args.push("center".to_owned());
                args.push("-extent".to_owned());
                let mut frame = u64_to_string(thumbnail_size.width as u64);
                frame.append("x");
                frame.append(u64_to_string(thumbnail_size.height as u64).as_str());
                proof {
                    reveal_strlit("x");
                }
                args.push(frame);
            },
            _ => {},
        }
        args.push("-limit".to_owned());
        args.push("memory".to_owned());
        args.push("256MB".to_owned());
        args.push("-limit".to_owned());
        args.push("disk".to_owned());
        args.push("1GB".to_owned());
        args.push("-limit".to_owned());
        args.push("thread".to_owned());
        args.push("1".to_owned());
        if str_ends_with(output, ".jpg") || str_ends_with(output, ".jpeg") {
            args.push("-quality".to_owned());
            args.push("95".to_owned());
        } else if str_ends_with(output, ".webp") {
            args.push("-quality".to_owned());
            args.push("80".to_owned());
        }
        args.push(output.to_owned());
        proof {
            assert(args.deep_view() =~= magick_thumb_args_chars(
                self.mode,
                *thumbnail_size,
                input@,
                output@,
            ));
        }
        args
    }

    /// The vips command for one rendition.
    pub fn build_vips_args(&self, input: &str, output: &str, thumbnail_size: &ThumbnailSize) -> (r:
        Vec<String>)
        ensures
            r.deep_view() == vips_thumb_args_chars(self.mode, *thumbnail_size, input@, output@),
    {
        let mut args: Vec<String> = Vec::new();
        args.push("thumbnail".to_owned());
        args.push(input.to_owned());
        args.push(output.to_owned());
        args.push(u64_to_string(thumbnail_size.width as u64));
        args.push("--height".to_owned());
        args.push(u64_to_string(thumbnail_size.height as u64));
        args.push("--kernel".to_owned());
        args.push("mitchell".to_owned());
        match self.mode {
            ResizeMode::Fit => {},
            ResizeMode::Fill => {
                args.push("--crop".to_owned());
                args.push("centre".to_owned());
            },
            ResizeMode::Stretch => {
                args.push("--no-rotate".to_owned());
            },
        }
        if str_ends_with(output, ".jpg") || str_ends_with(output, ".jpeg") {
            args.push("--Q".to_owned());
            args.push("95".to_owned());
        } else if str_ends_with(output, ".webp") {
            args.push("--Q".to_owned());
            args.push("80".to_owned());
        }
        proof {
            assert(args.deep_view() =~= vips_thumb_args_chars(
                self.mode,
                *thumbnail_size,
                input@,
                output@,
            ));
        }
        args
    }
}

/// Thumbnail creation needs at least one resize tool — either ImageMagick
/// generation, or vips.
pub fn thumbnail_dependency_status(has_magick: bool, has_convert: bool, has_vips: bool) -> (r:
    Result<(), crate::error::OptimizeError>)
    ensures
        r is Ok <==> (has_magick || has_convert || has_vips),
        r matches Err(e) ==> e matches crate::error::OptimizeError::MissingDependency(m) && m@
            == "No thumbnail creation tools available. Install ImageMagick or libvips"@,
{
    if has_magick || has_convert || has_vips {
        Ok(())
    } else {
        Err(
            crate::error::OptimizeError::MissingDependency(
                "No thumbnail creation tools available. Install ImageMagick or libvips".to_owned(),
            ),
        )
    }
}

/// How many of the files are supported images.
pub open spec fn supported_count(files: Seq<FilePath>) -> int
    decreases files.len(),
{
    if files.len() == 0 {
        0
    } else {
        supported_count(files.drop_last()) + if is_image_path(&files.last()) {
            1int
        } else {
            0int
        }
    }
}

} // verus!
