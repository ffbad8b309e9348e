//! Command planning for the external encoders: which tools serve a
//! format, in what order of preference, and with exactly which arguments.
//! Spawning the processes, and falling through to the next tool when one
//! fails, happen outside this crate; every word they pass is decided
//! here.

use vstd::prelude::*;

use crate::config::Config;
use crate::error::OptimizeError;
use crate::paths::FilePath;
use crate::text::{dec_str, u64_to_string};

verus! {

/// One planned call of an external tool: the tool's base name, its
/// arguments in order, and whether its result arrives on standard output
/// rather than at the output path.
#[derive(Debug)]
pub struct ToolInvocation {
    pub tool: String,
    pub args: Vec<String>,
    pub stdout_to_output: bool,
}

/// jpegoptim writes to standard output: quality cap, stdout, input.
pub open spec fn jpegoptim_args_chars(quality: nat, input: Seq<char>) -> Seq<Seq<char>> {
    seq!["--max="@ + dec_str(quality), "--stdout"@, input]
}

/// mozjpeg: quality, optimize, progressive, output file, input.
pub open spec fn mozjpeg_args_chars(quality: nat, input: Seq<char>, output: Seq<char>) -> Seq<
    Seq<char>,
> {
    seq!["-quality"@, dec_str(quality), "-optimize"@, "-progressive"@, "-outfile"@, output, input]
}

/// jpegtran: lossless optimize, progressive, output file, input.
pub open spec fn jpegtran_args_chars(input: Seq<char>, output: Seq<char>) -> Seq<Seq<char>> {
    seq!["-optimize"@, "-progressive"@, "-outfile"@, output, input]
}

/// oxipng: level six, strip everything, output file, input.
pub open spec fn oxipng_args_chars(input: Seq<char>, output: Seq<char>) -> Seq<Seq<char>> {
    seq!["-o"@, "6"@, "--strip"@, "all"@, "--out"@, output, input]
}

/// optipng: level seven, strip everything, output file, input.
pub open spec fn optipng_args_chars(input: Seq<char>, output: Seq<char>) -> Seq<Seq<char>> {
    seq!["-o7"@, "-strip"@, "all"@, "-out"@, output, input]
}

/// pngcrush: remove all ancillary chunks, brute force, input, output.
pub open spec fn pngcrush_args_chars(input: Seq<char>, output: Seq<char>) -> Seq<Seq<char>> {
    seq!["-rem"@, "alla"@, "-brute"@, input, output]
}

/// cwebp: quality, method four, multi-threaded, input, output.
pub open spec fn cwebp_args_chars(quality: nat, input: Seq<char>, output: Seq<char>) -> Seq<
    Seq<char>,
> {
    seq!["-q"@, dec_str(quality), "-m"@, "4"@, "-mt"@, input, "-o"@, output]
}

fn push_all(args: &mut Vec<String>, words: &[&str])
    ensures
        final(args)@.len() == old(args)@.len() + words@.len(),
        forall|i: int| 0 <= i < old(args)@.len() ==> final(args)@[i] == old(args)@[i],
        forall|i: int|
            0 <= i < words@.len() ==> final(args)@[old(args)@.len() + i]@ == words@[i]@,
{
    let n = words.len();
    let mut i: usize = 0;
    while i < n
        invariant
            i <= n,
            n == words@.len(),
            args@.len() == old(args)@.len() + i,
            forall|k: int| 0 <= k < old(args)@.len() ==> args@[k] == old(args)@[k],
            forall|k: int| 0 <= k < i ==> args@[old(args)@.len() + k]@ == words@[k]@,
        decreases n - i,
    {
        args.push(words[i].to_owned());
        i = i + 1;
    }
}

/// The jpegoptim call for an input at the configured JPEG quality.
pub fn jpegoptim_invocation(quality: u8, input: &str) -> (r: ToolInvocation)
    ensures
        r.tool@ == "jpegoptim"@,
        r.args.deep_view() == jpegoptim_args_chars(quality as nat, input@),
        r.stdout_to_output,
{
    let mut max_arg = "--max=".to_owned();
    max_arg.append(u64_to_string(quality as u64).as_str());
    let mut args: Vec<String> = Vec::new();
    args.push(max_arg);
    push_all(&mut args, &["--stdout", input]);
    proof {
        assert(args.deep_view() =~= jpegoptim_args_chars(quality as nat, input@));
    }
    ToolInvocation { tool: "jpegoptim".to_owned(), args, stdout_to_output: true }
}

/// The mozjpeg call for an input and output at the configured quality.
pub fn mozjpeg_invocation(quality: u8, input: &str, output: &str) -> (r: ToolInvocation)
    ensures
        r.tool@ == "mozjpeg"@,
        r.args.deep_view() == mozjpeg_args_chars(quality as nat, input@, output@),
        !r.stdout_to_output,
{
    let mut args: Vec<String> = Vec::new();
    args.push("-quality".to_owned());
    args.push(u64_to_string(quality as u64));
    push_all(&mut args, &["-optimize", "-progressive", "-outfile", output, input]);
    proof {
        assert(args.deep_view() =~= mozjpeg_args_chars(quality as nat, input@, output@));
    }
    ToolInvocation { tool: "mozjpeg".to_owned(), args, stdout_to_output: false }
}

/// The jpegtran call for an input and output.
pub fn jpegtran_invocation(input: &str, output: &str) -> (r: ToolInvocation)
    ensures
        r.tool@ == "jpegtran"@,
        r.args.deep_view() == jpegtran_args_chars(input@, output@),
        !r.stdout_to_output,
{
    let mut args: Vec<String> = Vec::new();
    push_all(&mut args, &["-optimize", "-progressive", "-outfile", output, input]);
    proof {
        assert(args.deep_view() =~= jpegtran_args_chars(input@, output@));
    }
    ToolInvocation { tool: "jpegtran".to_owned(), args, stdout_to_output: false }
}

/// The oxipng call for an input and output.
pub fn oxipng_invocation(input: &str, output: &str) -> (r: ToolInvocation)
    ensures
        r.tool@ == "oxipng"@,
        r.args.deep_view() == oxipng_args_chars(input@, output@),
        !r.stdout_to_output,
{
    let mut args: Vec<String> = Vec::new();
    push_all(&mut args, &["-o", "6", "--strip", "all", "--out", output, input]);
    proof {
        assert(args.deep_view() =~= oxipng_args_chars(input@, output@));
    }
    ToolInvocation { tool: "oxipng".to_owned(), args, stdout_to_output: false }
}

/// The optipng call for an input and output.
pub fn optipng_invocation(input: &str, output: &str) -> (r: ToolInvocation)
    ensures
        r.tool@ == "optipng"@,
        r.args.deep_view() == optipng_args_chars(input@, output@),
        !r.stdout_to_output,
{
    let mut args: Vec<String> = Vec::new();
    push_all(&mut args, &["-o7", "-strip", "all", "-out", output, input]);
    proof {
        assert(args.deep_view() =~= optipng_args_chars(input@, output@));
    }
    ToolInvocation { tool: "optipng".to_owned(), args, stdout_to_output: false }
}

/// The pngcrush call for an input and output.
pub fn pngcrush_invocation(input: &str, output: &str) -> (r: ToolInvocation)
    ensures
        r.tool@ == "pngcrush"@,
        r.args.deep_view() == pngcrush_args_chars(input@, output@),
        !r.stdout_to_output,
{
    let mut args: Vec<String> = Vec::new();
    push_all(&mut args, &["-rem", "alla", "-brute", input, output]);
    proof {
        assert(args.deep_view() =~= pngcrush_args_chars(input@, output@));
    }
    ToolInvocation { tool: "pngcrush".to_owned(), args, stdout_to_output: false }
}

/// The cwebp call for an input and output at the configured WebP quality.
pub fn cwebp_invocation(quality: u8, input: &str, output: &str) -> (r: ToolInvocation)
    ensures
        r.tool@ == "cwebp"@,
        r.args.deep_view() == cwebp_args_chars(quality as nat, input@, output@),
        !r.stdout_to_output,
{
    let mut args: Vec<String> = Vec::new();
    args.push("-q".to_owned());
    args.push(u64_to_string(quality as u64));
    push_all(&mut args, &["-m", "4", "-mt", input, "-o", output]);
    proof {
        assert(args.deep_view() =~= cwebp_args_chars(quality as nat, input@, output@));
    }
    ToolInvocation { tool: "cwebp".to_owned(), args, stdout_to_output: false }
}

/// The image formats the encoders serve.
#[derive(Debug, Clone, Copy, PartialEq, Eq, Structural)]
pub enum ImageFormat {
    Jpeg,
    Png,
    Webp,
}

/// The format an extension names, ignoring ASCII case.
pub open spec fn image_format_spec(ext: Seq<char>) -> Option<ImageFormat> {
    if crate::text::matches_lower(ext, "jpg"@) || crate::text::matches_lower(ext, "jpeg"@) {
        Some(ImageFormat::Jpeg)
    } else if crate::text::matches_lower(ext, "png"@) {
        Some(ImageFormat::Png)
    } else if crate::text::matches_lower(ext, "webp"@) {
        Some(ImageFormat::Webp)
    } else {
        None
    }
}

/// Classify an image file's extension.
pub fn image_format_of(path: &FilePath) -> (r: Option<ImageFormat>)
    ensures
        match path.ext {
            Some(e) => r == image_format_spec(e@),
            None => r is None,
        },
{
    match &path.ext {
        Some(e) => {
            let s = e.as_str();
            if crate::text::eq_ignore_ascii_upper(s, "jpg") || crate::text::eq_ignore_ascii_upper(
                s,
                "jpeg",
            ) {
                Some(ImageFormat::Jpeg)
            } else if crate::text::eq_ignore_ascii_upper(s, "png") {
                Some(ImageFormat::Png)
            } else if crate::text::eq_ignore_ascii_upper(s, "webp") {
                Some(ImageFormat::Webp)
            } else {
                None
            }
        },
        None => None,
    }
}

/// The tools that may serve one image, in order of preference: the
/// format-specific chain, or cwebp alone when converting (and always for
/// WebP inputs, which are re-encoded rather than converted).
pub fn plan_image_invocations(format: ImageFormat, config: &Config, input: &str, output: &str) -> (r:
    Vec<ToolInvocation>)
    ensures
        format is Webp ==> r@.len() == 1 && r@[0].tool@ == "cwebp"@ && r@[0].args.deep_view()
            == cwebp_args_chars(config.webp_quality as nat, input@, output@)
            && !r@[0].stdout_to_output,
        format is Jpeg && config.convert_to_webp ==> r@.len() == 1 && r@[0].tool@ == "cwebp"@
            && r@[0].args.deep_view() == cwebp_args_chars(
            config.webp_quality as nat,
            input@,
            output@,
        ) && !r@[0].stdout_to_output,
        format is Png && config.convert_to_webp ==> r@.len() == 1 && r@[0].tool@ == "cwebp"@
            && r@[0].args.deep_view() == cwebp_args_chars(
            config.webp_quality as nat,
            input@,
            output@,
        ) && !r@[0].stdout_to_output,
        format is Jpeg && !config.convert_to_webp ==> r@.len() == 3 && r@[0].tool@ == "jpegoptim"@
            && r@[0].args.deep_view() == jpegoptim_args_chars(config.jpeg_quality as nat, input@)
            && r@[0].stdout_to_output && r@[1].tool@ == "mozjpeg"@ && r@[1].args.deep_view()
            == mozjpeg_args_chars(config.jpeg_quality as nat, input@, output@)
            && !r@[1].stdout_to_output && r@[2].tool@ == "jpegtran"@ && r@[2].args.deep_view()
            == jpegtran_args_chars(input@, output@) && !r@[2].stdout_to_output,
        format is Png && !config.convert_to_webp ==> r@.len() == 3 && r@[0].tool@ == "oxipng"@
            && r@[0].args.deep_view() == oxipng_args_chars(input@, output@)
            && !r@[0].stdout_to_output && r@[1].tool@ == "optipng"@ && r@[1].args.deep_view()
            == optipng_args_chars(input@, output@) && !r@[1].stdout_to_output && r@[2].tool@
            == "pngcrush"@ && r@[2].args.deep_view() == pngcrush_args_chars(
            input@,
            output@,
        ) && !r@[2].stdout_to_output,
{
    let mut out: Vec<ToolInvocation> = Vec::new();
    match format {
        ImageFormat::Webp => {
            out.push(cwebp_invocation(config.webp_quality, input, output));
        },
        ImageFormat::Jpeg => {
            if config.convert_to_webp {
                out.push(cwebp_invocation(config.webp_quality, input, output));
            } else {
                out.push(jpegoptim_invocation(config.jpeg_quality, input));
                out.push(mozjpeg_invocation(config.jpeg_quality, input, output));
                out.push(jpegtran_invocation(input, output));
            }
        },
        ImageFormat::Png => {
            if config.convert_to_webp {
                out.push(cwebp_invocation(config.webp_quality, input, output));
            } else {
                out.push(oxipng_invocation(input, output));
                out.push(optipng_invocation(input, output));
                out.push(pngcrush_invocation(input, output));
            }
        },
    }
    out
}

/// ffmpeg re-encode: H.264 at the configured CRF with the slowest preset,
/// AAC audio at the configured bitrate, metadata mapped through.
pub open spec fn ffmpeg_compress_args_chars(
    crf: nat,
    audio_bitrate: Seq<char>,
    input: Seq<char>,
    output: Seq<char>,
) -> Seq<Seq<char>> {
    seq![
        "-i"@,
        input,
        "-c:v"@,
        "libx264"@,
        "-preset"@,
        "veryslow"@,
        "-crf"@,
        dec_str(crf),
        "-c:a"@,
        "aac"@,
        "-b:a"@,
        audio_bitrate,
        "-map_metadata"@,
        "0"@,
        "-movflags"@,
        "use_metadata_tags"@,
        "-y"@,
        output,
    ]
}

/// The ffmpeg call that compresses one video under the configuration.
pub fn ffmpeg_compress_invocation(config: &Config, input: &str, output: &str) -> (r: ToolInvocation)
    ensures
        r.tool@ == "ffmpeg"@,
        r.args.deep_view() == ffmpeg_compress_args_chars(
            config.video_crf as nat,
            config.audio_bitrate@,
            input@,
            output@,
        ),
        !r.stdout_to_output,
{
    let mut args: Vec<String> = Vec::new();
    push_all(&mut args, &["-i", input, "-c:v", "libx264", "-preset", "veryslow", "-crf"]);
    args.push(u64_to_string(config.video_crf as u64));
    push_all(&mut args, &["-c:a", "aac", "-b:a"]);
    args.push(config.audio_bitrate.clone());
    push_all(
        &mut args,
        &["-map_metadata", "0", "-movflags", "use_metadata_tags", "-y", output],
    );
    proof {
        assert(args.deep_view() =~= ffmpeg_compress_args_chars(
            config.video_crf as nat,
            config.audio_bitrate@,
            input@,
            output@,
        ));
    }
    ToolInvocation { tool: "ffmpeg".to_owned(), args, stdout_to_output: false }
}

/// exiftool metadata copy: all tags from the source, embedded data
/// included, overwriting the target in place.
pub open spec fn exiftool_copy_args_chars(source: Seq<char>, target: Seq<char>) -> Seq<Seq<char>> {
    seq![
        "-tagsFromFile"@,
        source,
        "-extractEmbedded"@,
        "-all:all"@,
        "-FileModifyDate"@,
        "-overwrite_original"@,
        target,
    ]
}

/// The exiftool call that carries the source's metadata to the target.
pub fn exiftool_copy_invocation(source: &str, target: &str) -> (r: ToolInvocation)
    ensures
        r.tool@ == "exiftool"@,
        r.args.deep_view() == exiftool_copy_args_chars(source@, target@),
        !r.stdout_to_output,
{
    let mut args: Vec<String> = Vec::new();
    push_all(
        &mut args,
        &[
            "-tagsFromFile",
            source,
            "-extractEmbedded",
            "-all:all",
            "-FileModifyDate",
            "-overwrite_original",
            target,
        ],
    );
    proof {
        assert(args.deep_view() =~= exiftool_copy_args_chars(source@, target@));
    }
    ToolInvocation { tool: "exiftool".to_owned(), args, stdout_to_output: false }
}

/// ffprobe analysis: quiet, JSON, container and stream details.
pub open spec fn ffprobe_args_chars(path: Seq<char>) -> Seq<Seq<char>> {
    seq!["-v"@, "quiet"@, "-print_format"@, "json"@, "-show_format"@, "-show_streams"@, path]
}

/// The ffprobe call that reports one video's properties as JSON on
/// standard output.
pub fn ffprobe_invocation(path: &str) -> (r: ToolInvocation)
    ensures
        r.tool@ == "ffprobe"@,
        r.args.deep_view() == ffprobe_args_chars(path@),
        r.stdout_to_output,
{
    let mut args: Vec<String> = Vec::new();
    push_all(
        &mut args,
        &["-v", "quiet", "-print_format", "json", "-show_format", "-show_streams", path],
    );
    proof {
        assert(args.deep_view() =~= ffprobe_args_chars(path@));
    }
    ToolInvocation { tool: "ffprobe".to_owned(), args, stdout_to_output: true }
}

/// The frame-size limit above which an image is shrunk before encoding.
pub const RESIZE_LIMIT_WIDTH: u32 = 2560;

/// See [`RESIZE_LIMIT_WIDTH`].
pub const RESIZE_LIMIT_HEIGHT: u32 = 1440;

/// Whether an image is large enough to be shrunk before encoding.
pub fn exceeds_resolution_limit(width: u32, height: u32) -> (r: bool)
    ensures
        r == (width > RESIZE_LIMIT_WIDTH || height > RESIZE_LIMIT_HEIGHT),
{
    width > RESIZE_LIMIT_WIDTH || height > RESIZE_LIMIT_HEIGHT
}

/// The name of the temporary file a pre-shrunk image is written to,
/// beside the system's temporary directory: the stem, a fixed marker, and
/// the input's extension (a placeholder when it has none).
pub open spec fn temp_resized_name_chars(p: &FilePath) -> Seq<char> {
    p.stem@ + "_resized_temp."@ + match p.ext {
        Some(e) => e@,
        None => "tmp"@,
    }
}

/// The temporary file name for a pre-shrunk copy of `input`.
pub fn temp_resized_file_name(input: &FilePath) -> (r: String)
    ensures
        r@ == temp_resized_name_chars(input),
{
    let mut s = input.stem.clone();
    s.append("_resized_temp.");
    match &input.ext {
        Some(e) => s.append(e.as_str()),
        None => s.append("tmp"),
    }
    s
}

/// The pre-shrink call for ImageMagick (either generation): fit within
/// the limit without enlarging, good filter, consistent colors, high
/// intermediate quality, metadata stripped, bounded resources.
pub open spec fn magick_resize_args_chars(input: Seq<char>, output: Seq<char>) -> Seq<Seq<char>> {
    seq![
        input,
        "-resize"@,
        "2560x1440>"@,
        "-filter"@,
        "Lanczos"@,
        "-colorspace"@,
        "sRGB"@,
        "-quality"@,
        "95"@,
        "-strip"@,
        "-limit"@,
        "memory"@,
        "512MB"@,
        "-limit"@,
        "disk"@,
        "2GB"@,
        output,
    ]
}

/// The ImageMagick call that shrinks an oversized image in place of the
/// encoder's input.
pub fn magick_resize_invocation(tool: &str, input: &str, output: &str) -> (r: ToolInvocation)
    ensures
        r.tool@ == tool@,
        r.args.deep_view() == magick_resize_args_chars(input@, output@),
        !r.stdout_to_output,
{
    let mut args: Vec<String> = Vec::new();
    push_all(
        &mut args,
        &[
            input,
            "-resize",
            "2560x1440>",
            "-filter",
            "Lanczos",
            "-colorspace",
            "sRGB",
            "-quality",
            "95",
            "-strip",
            "-limit",
            "memory",
            "512MB",
            "-limit",
            "disk",
            "2GB",
            output,
        ],
    );
    proof {
        assert(args.deep_view() =~= magick_resize_args_chars(input@, output@));
    }
    ToolInvocation { tool: tool.to_owned(), args, stdout_to_output: false }
}

/// The pre-shrink call for vips: thumbnail to the limit with a good
/// kernel.
pub open spec fn vips_resize_args_chars(input: Seq<char>, output: Seq<char>) -> Seq<Seq<char>> {
    seq!["thumbnail"@, input, output, "2560"@, "--height"@, "1440"@, "--kernel"@, "mitchell"@]
}

/// The vips call that shrinks an oversized image.
pub fn vips_resize_invocation(input: &str, output: &str) -> (r: ToolInvocation)
    ensures
        r.tool@ == "vips"@,
        r.args.deep_view() == vips_resize_args_chars(input@, output@),
        !r.stdout_to_output,
{
    let mut args: Vec<String> = Vec::new();
    push_all(&mut args, &["thumbnail", input, output, "2560", "--height", "1440", "--kernel", "mitchell"]);
    proof {
        assert(args.deep_view() =~= vips_resize_args_chars(input@, output@));
    }
    ToolInvocation { tool: "vips".to_owned(), args, stdout_to_output: false }
}

/// The probe's printed frame size, handed over as whitespace-separated
/// words: exactly two decimal numbers in range.
pub fn parse_dimensions(parts: &[&str]) -> (r: Option<(u32, u32)>)
    ensures
        r is Some <==> (parts@.len() == 2 && parts@[0]@.len() > 0 && crate::text::all_digits(
            parts@[0]@,
        ) && crate::text::str_val(parts@[0]@) <= u32::MAX && parts@[1]@.len() > 0
            && crate::text::all_digits(parts@[1]@) && crate::text::str_val(parts@[1]@)
            <= u32::MAX),
        r matches Some(d) ==> d.0 == crate::text::str_val(parts@[0]@) && d.1
            == crate::text::str_val(parts@[1]@),
{
    if parts.len() != 2 {
        return None;
    }
    match (crate::text::parse_u32(parts[0]), crate::text::parse_u32(parts[1])) {
        (Some(w), Some(h)) => Some((w, h)),
        _ => None,
    }
}

/// At least one image tool category must be served, else the run cannot
/// start.
pub fn image_dependency_status(has_jpeg_tool: bool, has_png_tool: bool, has_webp_tool: bool) -> (r:
    Result<(), OptimizeError>)
    ensures
        r is Ok <==> (has_jpeg_tool || has_png_tool || has_webp_tool),
        r matches Err(e) ==> e matches OptimizeError::MissingDependency(m) && m@
            == "No image optimization tools available. Install at least one of: mozjpeg, jpegoptim, jpegtran, oxipng, optipng, pngcrush, cwebp"@,
{
    if has_jpeg_tool || has_png_tool || has_webp_tool {
        Ok(())
    } else {
        Err(
            OptimizeError::MissingDependency(
                "No image optimization tools available. Install at least one of: mozjpeg, jpegoptim, jpegtran, oxipng, optipng, pngcrush, cwebp".to_owned(),
            ),
        )
    }
}

/// The lines of the video dependency error, one per missing tool.
pub open spec fn video_missing_chars(
    has_ffmpeg: bool,
    has_ffprobe: bool,
    has_exiftool: bool,
) -> Seq<char> {
    "Missing required video processing tools:\n"@ + (if !has_ffmpeg {
        "  ffmpeg - video compression and encoding\n"@
    } else {
        Seq::empty()
    }) + (if !has_ffprobe {
        "  ffprobe - video analysis and property extraction\n"@
    } else {
        Seq::empty()
    }) + (if !has_exiftool {
        "  exiftool - metadata preservation and manipulation\n"@
    } else {
        Seq::empty()
    })
}

/// Every video tool must be present, else the run cannot start.
pub fn video_dependency_status(has_ffmpeg: bool, has_ffprobe: bool, has_exiftool: bool) -> (r:
    Result<(), OptimizeError>)
    ensures
        r is Ok <==> (has_ffmpeg && has_ffprobe && has_exiftool),
        r matches Err(e) ==> e matches OptimizeError::MissingDependency(m) && m@
            == video_missing_chars(has_ffmpeg, has_ffprobe, has_exiftool),
{
    if has_ffmpeg && has_ffprobe && has_exiftool {
        Ok(())
    } else {
        let mut m = "Missing required video processing tools:\n".to_owned();
        if !has_ffmpeg {
            m.append("  ffmpeg - video compression and encoding\n");
        }
        if !has_ffprobe {
            m.append("  ffprobe - video analysis and property extraction\n");
        }
        if !has_exiftool {
            m.append("  exiftool - metadata preservation and manipulation\n");
        }
        Err(OptimizeError::MissingDependency(m))
    }
}

/// WebP conversion needs its encoder; without conversion nothing is
/// required here.
pub fn webp_support_status(convert_to_webp: bool, has_cwebp: bool) -> (r: Result<
    (),
    OptimizeError,
>)
    ensures
        r is Ok <==> (!convert_to_webp || has_cwebp),
        r matches Err(e) ==> e matches OptimizeError::MissingDependency(m) && m@
            == "cwebp is required for WebP conversion. Please install webp tools."@,
{
    if !convert_to_webp || has_cwebp {
        Ok(())
    } else {
        Err(
            OptimizeError::MissingDependency(
                "cwebp is required for WebP conversion. Please install webp tools.".to_owned(),
            ),
        )
    }
}

} // verus!
