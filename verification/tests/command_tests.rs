use media_optimizer::commands::{
    exceeds_resolution_limit, exiftool_copy_invocation, ffmpeg_compress_invocation,
    ffprobe_invocation, image_dependency_status, image_format_of, parse_dimensions,
    plan_image_invocations, temp_resized_file_name, video_dependency_status, webp_support_status,
    ImageFormat,
};
use media_optimizer::config::{Config, ThumbnailSize};
use media_optimizer::error::OptimizeError;
use media_optimizer::paths::{DirPath, FilePath};
use media_optimizer::resize::{thumbnail_dependency_status, ImageResizer, ResizeAlgorithm, ResizeMode};
use media_optimizer::tool_resolver::ToolPathResolver;

fn dir(parts: &[&str]) -> DirPath {
    DirPath {
        comps: parts.iter().map(|p| p.to_string()).collect(),
    }
}

fn file(parts: &[&str], stem: &str, ext: Option<&str>) -> FilePath {
    FilePath {
        dir: dir(parts),
        stem: stem.to_string(),
        ext: ext.map(|e| e.to_string()),
    }
}

fn resolver(tools: &[(&str, &str)]) -> ToolPathResolver {
    ToolPathResolver::new(
        tools
            .iter()
            .map(|(n, p)| (n.to_string(), p.to_string()))
            .collect(),
        false,
    )
}

#[test]
fn test_image_format_routing() {
    assert_eq!(
        image_format_of(&file(&[], "a", Some("JPG"))),
        Some(ImageFormat::Jpeg)
    );
    assert_eq!(
        image_format_of(&file(&[], "a", Some("png"))),
        Some(ImageFormat::Png)
    );
    assert_eq!(
        image_format_of(&file(&[], "a", Some("webp"))),
        Some(ImageFormat::Webp)
    );
    assert_eq!(image_format_of(&file(&[], "a", Some("gif"))), None);
    assert_eq!(image_format_of(&file(&[], "a", None)), None);
}

#[test]
fn test_jpeg_tool_plan() {
    let config = Config::default();
    let plan = plan_image_invocations(ImageFormat::Jpeg, &config, "in.jpg", "out.jpg");
    assert_eq!(plan.len(), 3);
    assert_eq!(plan[0].tool, "jpegoptim");
    assert!(plan[0].stdout_to_output);
    assert_eq!(plan[0].args, vec!["--max=80", "--stdout", "in.jpg"]);
    assert_eq!(plan[1].tool, "mozjpeg");
    assert_eq!(
        plan[1].args,
        vec![
            "-quality",
            "80",
            "-optimize",
            "-progressive",
            "-outfile",
            "out.jpg",
            "in.jpg"
        ]
    );
    assert_eq!(plan[2].tool, "jpegtran");
    assert_eq!(
        plan[2].args,
        vec!["-optimize", "-progressive", "-outfile", "out.jpg", "in.jpg"]
    );
}

#[test]
fn test_png_tool_plan() {
    let config = Config::default();
    let plan = plan_image_invocations(ImageFormat::Png, &config, "in.png", "out.png");
    assert_eq!(plan.len(), 3);
    assert_eq!(plan[0].tool, "oxipng");
    assert_eq!(
        plan[0].args,
        vec!["-o", "6", "--strip", "all", "--out", "out.png", "in.png"]
    );
    assert_eq!(plan[1].tool, "optipng");
    assert_eq!(plan[2].tool, "pngcrush");
    assert_eq!(
        plan[2].args,
        vec!["-rem", "alla", "-brute", "in.png", "out.png"]
    );
}

#[test]
fn test_webp_conversion_plan() {
    let mut config = Config::default();
    config.convert_to_webp = true;
    config.webp_quality = 75;
    let plan = plan_image_invocations(ImageFormat::Jpeg, &config, "in.jpg", "out.webp");
    assert_eq!(plan.len(), 1);
    assert_eq!(plan[0].tool, "cwebp");
    assert_eq!(
        plan[0].args,
        vec!["-q", "75", "-m", "4", "-mt", "in.jpg", "-o", "out.webp"]
    );

    let plan = plan_image_invocations(ImageFormat::Webp, &Config::default(), "a.webp", "b.webp");
    assert_eq!(plan.len(), 1);
    assert_eq!(plan[0].tool, "cwebp");
}

#[test]
fn test_ffmpeg_invocation() {
    let mut config = Config::default();
    config.video_crf = 24;
    config.audio_bitrate = "192k".to_string();
    let inv = ffmpeg_compress_invocation(&config, "in.mov", "out.mp4");
    assert_eq!(inv.tool, "ffmpeg");
    assert_eq!(
        inv.args,
        vec![
            "-i",
            "in.mov",
            "-c:v",
            "libx264",
            "-preset",
            "veryslow",
            "-crf",
            "24",
            "-c:a",
            "aac",
            "-b:a",
            "192k",
            "-map_metadata",
            "0",
            "-movflags",
            "use_metadata_tags",
            "-y",
            "out.mp4"
        ]
    );
}

#[test]
fn test_exiftool_and_ffprobe_invocations() {
    let inv = exiftool_copy_invocation("src.mp4", "dst.mp4");
    assert_eq!(inv.tool, "exiftool");
    assert_eq!(
        inv.args,
        vec![
            "-tagsFromFile",
            "src.mp4",
            "-extractEmbedded",
            "-all:all",
            "-FileModifyDate",
            "-overwrite_original",
            "dst.mp4"
        ]
    );
    let inv = ffprobe_invocation("v.mp4");
    assert_eq!(inv.tool, "ffprobe");
    assert!(inv.stdout_to_output);
    assert_eq!(
        inv.args,
        vec![
            "-v",
            "quiet",
            "-print_format",
            "json",
            "-show_format",
            "-show_streams",
            "v.mp4"
        ]
    );
}

#[test]
fn test_resolution_limit_and_temp_name() {
    assert!(!exceeds_resolution_limit(2560, 1440));
    assert!(exceeds_resolution_limit(2561, 1440));
    assert!(exceeds_resolution_limit(100, 1441));
    let name = temp_resized_file_name(&file(&["m"], "photo", Some("jpg")));
    assert_eq!(name, "photo_resized_temp.jpg");
    let name = temp_resized_file_name(&file(&["m"], "photo", None));
    assert_eq!(name, "photo_resized_temp.tmp");
}

#[test]
fn test_parse_dimensions() {
    assert_eq!(parse_dimensions(&["1920", "1080"]), Some((1920, 1080)));
    assert_eq!(parse_dimensions(&["1920"]), None);
    assert_eq!(parse_dimensions(&["w", "1080"]), None);
    assert_eq!(parse_dimensions(&["1920", "1080", "x"]), None);
}

#[test]
fn test_dependency_status() {
    assert!(image_dependency_status(true, false, false).is_ok());
    assert!(image_dependency_status(false, false, true).is_ok());
    match image_dependency_status(false, false, false) {
        Err(OptimizeError::MissingDependency(_)) => {}
        other => panic!("expected a missing-dependency error, got {:?}", other),
    }

    assert!(video_dependency_status(true, true, true).is_ok());
    match video_dependency_status(false, true, false) {
        Err(OptimizeError::MissingDependency(m)) => {
            assert!(m.contains("ffmpeg"));
            assert!(m.contains("exiftool"));
            assert!(!m.contains("ffprobe -"));
        }
        other => panic!("expected a missing-dependency error, got {:?}", other),
    }

    assert!(webp_support_status(false, false).is_ok());
    assert!(webp_support_status(true, true).is_ok());
    assert!(webp_support_status(true, false).is_err());
}

#[test]
fn test_tool_resolution() {
    let r = resolver(&[("ffmpeg", "/usr/bin/ffmpeg"), ("cwebp", "/usr/bin/cwebp")]);
    assert_eq!(r.resolve_tool("ffmpeg").as_deref(), Some("/usr/bin/ffmpeg"));
    assert_eq!(r.resolve_tool("oxipng"), None);
    assert!(r.is_tool_available("cwebp"));
    assert!(!r.is_tool_available("cjpeg"));
    assert_eq!(r.cwebp().as_deref(), Some("/usr/bin/cwebp"));
    assert_eq!(r.ffmpeg().as_deref(), Some("/usr/bin/ffmpeg"));
    assert_eq!(r.oxipng(), None);
    assert_eq!(r.get_available_tools(), vec!["cwebp", "ffmpeg"]);
}

#[test]
fn test_tool_verification() {
    let all = resolver(&[
        ("cwebp", "/t/cwebp"),
        ("cjpeg", "/t/cjpeg"),
        ("djpeg", "/t/djpeg"),
        ("oxipng", "/t/oxipng"),
        ("ffmpeg", "/t/ffmpeg"),
    ]);
    assert!(all.verify_tools().is_ok());

    let partial = resolver(&[("cwebp", "/t/cwebp")]);
    match partial.verify_tools() {
        Err(m) => {
            assert!(m.starts_with("Some required tools are missing:"));
            assert!(m.contains("Tool 'cjpeg' not found"));
            assert!(m.contains("Tool 'ffmpeg' not found"));
            assert!(m.contains("sudo apt-get install ffmpeg"));
        }
        Ok(()) => panic!("expected missing tools"),
    }
}

#[test]
fn test_install_instructions_and_report() {
    let r = resolver(&[("ffmpeg", "/t/ffmpeg")]);
    assert_eq!(
        r.get_linux_install_instructions("cwebp"),
        "sudo apt-get install webp"
    );
    assert_eq!(
        r.get_linux_install_instructions("sometool"),
        "sudo apt-get install sometool"
    );
    match r.check_tool_with_instructions("ffmpeg") {
        Ok(p) => assert_eq!(p, "/t/ffmpeg"),
        Err(m) => panic!("expected a path, got {}", m),
    }
    assert!(r.check_tool_with_instructions("oxipng").is_err());
    let report = r.get_tools_report();
    assert!(report.starts_with("Tool Path Resolver Report\n"));
    assert!(report.contains("  [ok] ffmpeg -> /t/ffmpeg\n"));
    assert!(report.contains("  [missing] oxipng (install with: sudo apt-get install oxipng)\n"));
}

#[test]
fn test_thumbnail_dependency_status() {
    assert!(thumbnail_dependency_status(true, false, false).is_ok());
    assert!(thumbnail_dependency_status(false, false, true).is_ok());
    match thumbnail_dependency_status(false, false, false) {
        Err(OptimizeError::MissingDependency(m)) => {
            assert!(m.contains("ImageMagick"));
        }
        other => panic!("expected a missing-dependency error, got {:?}", other),
    }
}

#[test]
fn test_resize_enums() {
    assert_eq!(ResizeAlgorithm::Lanczos.to_imagemagick_filter(), "Lanczos");
    assert_eq!(ResizeAlgorithm::Point.to_imagemagick_filter(), "Point");
    assert_eq!(ResizeMode::Fit.to_imagemagick_geometry(300, 200), "300x200");
    assert_eq!(
        ResizeMode::Fill.to_imagemagick_geometry(300, 200),
        "300x200^"
    );
    assert_eq!(
        ResizeMode::Stretch.to_imagemagick_geometry(300, 200),
        "300x200!"
    );
}

#[test]
fn test_thumbnail_planning() {
    let mut config = Config::default();
    config.thumbnails = vec![
        (
            "small".to_string(),
            ThumbnailSize {
                width: 300,
                height: 200,
            },
        ),
        (
            "large".to_string(),
            ThumbnailSize {
                width: 800,
                height: 600,
            },
        ),
    ];
    let resizer = ImageResizer::new(
        config,
        ResizeAlgorithm::Lanczos,
        ResizeMode::Fit,
        Some(95),
        true,
    );
    assert_eq!(resizer.jpeg_quality, 95);

    let files = vec![
        file(&["m"], "a", Some("jpg")),
        file(&["m"], "b", Some("mp4")),
        file(&["m"], "c", Some("png")),
    ];
    assert_eq!(resizer.estimate_thumbnail_count(&files), 4);

    let t = resizer.get_thumbnail_path(
        &file(&["m", "x"], "a", Some("jpg")),
        &dir(&["m"]),
        &dir(&["out"]),
        "small",
    );
    assert_eq!(
        t.dir.comps,
        vec![
            "out".to_string(),
            "thumbnails".to_string(),
            "small".to_string(),
            "x".to_string()
        ]
    );
    assert_eq!(t.stem, "a");
    assert_eq!(t.ext.as_deref(), Some("jpg"));
}

#[test]
fn test_thumbnail_args() {
    let resizer = ImageResizer::new(
        Config::default(),
        ResizeAlgorithm::Lanczos,
        ResizeMode::Fit,
        None,
        true,
    );
    assert_eq!(resizer.jpeg_quality, 85);
    let size = ThumbnailSize {
        width: 300,
        height: 200,
    };
    let args = resizer.build_magick_args("in.png", "out.png", &size);
    assert_eq!(
        args,
        vec![
            "in.png",
            "-filter",
            "Mitchell",
            "-resize",
            "300x200",
            "-limit",
            "memory",
            "256MB",
            "-limit",
            "disk",
            "1GB",
            "-limit",
            "thread",
            "1",
            "out.png"
        ]
    );
    let args = resizer.build_magick_args("in.jpg", "out.jpg", &size);
    assert_eq!(&args[0..3], &["in.jpg", "-define", "jpeg:size=600x600"]);
    assert_eq!(&args[args.len() - 3..], &["-quality", "95", "out.jpg"]);

    let args = resizer.build_vips_args("in.jpg", "out.webp", &size);
    assert_eq!(
        args,
        vec![
            "thumbnail", "in.jpg", "out.webp", "300", "--height", "200", "--kernel", "mitchell",
            "--Q", "80"
        ]
    );
    assert_eq!(
        resizer.build_convert_args("in.png", "out.png", &size),
        resizer.build_magick_args("in.png", "out.png", &size)
    );
}

#[test]
fn test_thumbnail_fill_mode_args() {
    let resizer = ImageResizer::new(
        Config::default(),
        ResizeAlgorithm::Lanczos,
        ResizeMode::Fill,
        Some(95),
        true,
    );
    let size = ThumbnailSize {
        width: 300,
        height: 200,
    };
    let args = resizer.build_magick_args("in.png", "out.png", &size);
    assert!(args.windows(4).any(|w| w
        == ["-gravity", "center", "-extent", "300x200"]
            .map(String::from)));
    assert!(args.contains(&"300x200^".to_string()));

    let args = resizer.build_vips_args("in.png", "out.png", &size);
    assert!(args.windows(2).any(|w| w == ["--crop", "centre"].map(String::from)));
}
