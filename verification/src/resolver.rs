//! The deterministic output-path resolver.
//!
//! A pure mapping from an input file and the run configuration to the
//! output location. In output-directory mode the input's placement
//! relative to the input root is preserved; an input that cannot be
//! expressed relative to the root still gets a deterministic location
//! under its immediate parent's name — a deliberate graceful degradation,
//! never an error. The caller canonicalizes all three paths before they
//! reach this module, and creates directories itself; nothing here
//! touches the filesystem.

use vstd::prelude::*;

use crate::config::Config;
use crate::file_manager::is_video_path;
use crate::paths::{DirPath, FilePath};

verus! {

/// The extension the output file gets: the fixed video container for
/// videos, the alternate image format when conversion is requested,
/// otherwise the input's own extension (a default when it has none).
pub open spec fn output_ext_chars(input: &FilePath, config: &Config) -> Seq<char> {
    if is_video_path(input) {
        "mp4"@
    } else if config.convert_to_webp {
        "webp"@
    } else {
        match input.ext {
            Some(e) => e@,
            None => "jpg"@,
        }
    }
}

/// Where under the output root the file goes: its directory relative to
/// the input root when the root is a prefix, else just its immediate
/// parent's name (nothing when it has no parent component).
pub open spec fn relative_dir(input_dir: Seq<Seq<char>>, base: Seq<Seq<char>>) -> Seq<Seq<char>> {
    if base.len() <= input_dir.len() && base == input_dir.take(base.len() as int) {
        input_dir.skip(base.len() as int)
    } else if input_dir.len() > 0 {
        seq![input_dir.last()]
    } else {
        Seq::empty()
    }
}

/// Computes output locations; side-effect-free by design.
pub struct PathResolver;

impl PathResolver {
    /// The output extension for `input` under `config`.
    pub fn get_output_extension(input: &FilePath, config: &Config) -> (r: String)
        ensures
            r@ == output_ext_chars(input, config),
    {
        if crate::file_manager::FileManager::is_video(input) {
            "mp4".to_owned()
        } else if config.convert_to_webp {
            "webp".to_owned()
        } else {
            match &input.ext {
                Some(e) => e.clone(),
                None => "jpg".to_owned(),
            }
        }
    }

    /// The output location in output-directory mode: the output root,
    /// then the input's placement relative to the canonical input root
    /// (its parent's name alone when it escapes the root), then the file
    /// name handed in.
    pub fn resolve_output_directory_path(
        input: &FilePath,
        input_base_dir: &DirPath,
        output_dir: &DirPath,
        stem: String,
        ext: String,
    ) -> (r: FilePath)
        ensures
            r.dir@ == output_dir@ + relative_dir(input.dir@, input_base_dir@),
            r.stem == stem,
            r.ext matches Some(e) && e == ext,
    {
        let rel: DirPath = if input.dir.starts_with(input_base_dir) {
            input.dir.skip_prefix(input_base_dir.comps.len())
        } else {
            input.dir.last_component()
        };
        let dir = output_dir.join_dir(&rel);
        FilePath { dir, stem, ext: Some(ext) }
    }

    /// The output location for `input` under `config`: in the output tree
    /// when one is configured, beside the input otherwise. The stem is
    /// kept; only the extension is rewritten. The original name is never
    /// overwritten here — in-place replacement is the pipeline's explicit
    /// commit step.
    pub fn get_output_path(input: &FilePath, input_base_dir: &DirPath, config: &Config) -> (r:
        FilePath)
        ensures
            r.stem@ == input.stem@,
            r.ext matches Some(e) && e@ == output_ext_chars(input, config),
            match config.output_path {
                Some(out) => r.dir@ == out@ + relative_dir(input.dir@, input_base_dir@),
                None => r.dir@ == input.dir@,
            },
    {
        let ext = Self::get_output_extension(input, config);
        let stem = input.stem.clone();
        match &config.output_path {
            Some(output_dir) => Self::resolve_output_directory_path(
                input,
                input_base_dir,
                output_dir,
                stem,
                ext,
            ),
            None => FilePath { dir: input.dir.skip_prefix(0), stem, ext: Some(ext) },
        }
    }
}

} // verus!
