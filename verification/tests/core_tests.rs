use media_optimizer::config::{Config, JsonConfig};
use media_optimizer::error::OptimizeError;
use media_optimizer::platform::{Platform, PlatformCommands, SystemInfo};
use media_optimizer::text;
use media_optimizer::tool_resolver::ToolPathResolver;
use media_optimizer::utils::to_string_vec;

#[test]
fn test_config_validation() {
    let mut config = Config::default();
    assert!(config.validate().is_ok());

    config.jpeg_quality = 0;
    assert!(config.validate().is_err());

    config.jpeg_quality = 80;
    config.video_crf = 52;
    assert!(config.validate().is_err());

    config.video_crf = 26;
    config.size_threshold_permille = 1500;
    assert!(config.validate().is_err());
}

#[test]
fn test_config_default() {
    let config = Config::default();
    assert_eq!(config.jpeg_quality, 80);
    assert_eq!(config.video_crf, 26);
    assert_eq!(config.audio_bitrate, "128k");
    assert_eq!(config.size_threshold_permille, 900);
    assert!(!config.dry_run);
    assert_eq!(config.workers, 4);
}

#[test]
fn test_config_validation_messages() {
    let mut config = Config::default();
    config.webp_quality = 101;
    match config.validate() {
        Err(OptimizeError::Validation(m)) => {
            assert_eq!(m, "WebP quality must be between 1 and 100");
        }
        other => panic!("expected a validation error, got {:?}", other),
    }
    let mut config = Config::default();
    config.workers = 0;
    match config.validate() {
        Err(OptimizeError::Validation(m)) => {
            assert_eq!(m, "Number of workers must be greater than 0");
        }
        other => panic!("expected a validation error, got {:?}", other),
    }
}

#[test]
fn test_json_config_echoes_fields() {
    let mut config = Config::default();
    config.jpeg_quality = 85;
    config.workers = 8;
    config.dry_run = true;
    let jc = JsonConfig::from_config(&config);
    assert_eq!(jc.jpeg_quality, 85);
    assert_eq!(jc.video_crf, 26);
    assert_eq!(jc.workers, 8);
    assert!(!jc.convert_to_webp);
    assert_eq!(jc.webp_quality, 80);
    assert!(jc.dry_run);
}

#[test]
fn test_error_descriptions() {
    assert_eq!(
        OptimizeError::Io("gone".to_string()).describe(),
        "IO error: gone"
    );
    assert_eq!(
        OptimizeError::Encoder("bad frame".to_string()).describe(),
        "Encoder error: bad frame"
    );
    assert_eq!(
        OptimizeError::Timeout("a.mp4".to_string()).describe(),
        "Timeout: a.mp4"
    );
    assert_eq!(
        OptimizeError::UnsupportedFormat("a.txt".to_string()).describe(),
        "Unsupported file format: a.txt"
    );
    assert_eq!(
        OptimizeError::Validation("bad".to_string()).describe(),
        "Validation error: bad"
    );
    assert_eq!(
        OptimizeError::MissingDependency("ffmpeg".to_string()).describe(),
        "Dependency missing: ffmpeg"
    );
    assert_eq!(
        OptimizeError::State("disk full".to_string()).describe(),
        "State file error: disk full"
    );
}

#[test]
fn test_platform_commands() {
    let platform = PlatformCommands::instance();

    let exiftool = platform.get_command("exiftool");
    assert!(!exiftool.is_empty());

    let which = platform.which_command();
    assert!(!which.is_empty());
}

#[test]
fn test_platform_command_names() {
    let unix = PlatformCommands::new(Platform::Unix, ToolPathResolver::default());
    assert_eq!(unix.get_command("ffmpeg"), "ffmpeg");
    assert_eq!(unix.which_command(), "which");

    let windows = PlatformCommands::new(Platform::Windows, ToolPathResolver::default());
    assert_eq!(windows.get_command("ffmpeg"), "ffmpeg.exe");
    assert_eq!(windows.get_command("somethingelse"), "somethingelse");
    assert_eq!(windows.which_command(), "where");
}

#[test]
fn test_system_info_summary() {
    let info = SystemInfo {
        os: "linux".to_string(),
        arch: "x86_64".to_string(),
        family: "unix".to_string(),
    };
    assert_eq!(info.summary(), "linux x86_64 (unix)");
}

#[test]
fn test_to_string_vec_string_literals() {
    let result = to_string_vec(&["hello", "world"]);
    assert_eq!(result, vec!["hello".to_string(), "world".to_string()]);
}

#[test]
fn test_to_string_vec_mixed_types() {
    let num = 42;
    let result = to_string_vec(&["--quality", &num.to_string(), "--optimize"]);
    assert_eq!(
        result,
        vec![
            "--quality".to_string(),
            "42".to_string(),
            "--optimize".to_string()
        ]
    );
}

#[test]
fn test_to_string_vec_empty() {
    let result: Vec<String> = to_string_vec(&[]);
    assert_eq!(result, Vec::<String>::new());
}

#[test]
fn test_args_macro() {
    let quality = 85;
    let result = to_string_vec(&["--quality", &format!("{}", quality), "--optimize"]);
    assert_eq!(
        result,
        vec![
            "--quality".to_string(),
            "85".to_string(),
            "--optimize".to_string()
        ]
    );
}

#[test]
fn test_decimal_rendering() {
    assert_eq!(text::u64_to_string(0), "0");
    assert_eq!(text::u64_to_string(7), "7");
    assert_eq!(text::u64_to_string(1048576), "1048576");
    assert_eq!(text::u64_to_two_digits(5), "05");
    assert_eq!(text::u64_to_two_digits(42), "42");
}

#[test]
fn test_parse_numbers() {
    assert_eq!(text::parse_u64("123"), Some(123));
    assert_eq!(text::parse_u64("0"), Some(0));
    assert_eq!(text::parse_u64(""), None);
    assert_eq!(text::parse_u64("12a"), None);
    assert_eq!(text::parse_u64("18446744073709551615"), Some(u64::MAX));
    assert_eq!(text::parse_u64("18446744073709551616"), None);
    assert_eq!(text::parse_u32("4294967295"), Some(u32::MAX));
    assert_eq!(text::parse_u32("4294967296"), None);
}

#[test]
fn test_case_insensitive_matching() {
    assert!(text::eq_ignore_ascii_upper("JPG", "jpg"));
    assert!(text::eq_ignore_ascii_upper("Jpeg", "jpeg"));
    assert!(text::eq_ignore_ascii_upper("png", "png"));
    assert!(!text::eq_ignore_ascii_upper("gif", "jpg"));
    assert!(!text::eq_ignore_ascii_upper("jp", "jpg"));
}

#[test]
fn test_suffix_check() {
    assert!(text::str_eq("a/b.jpg", "a/b.jpg"));
    assert!(text::str_ends_with("photo.jpg", ".jpg"));
    assert!(!text::str_ends_with("photo.jpeg", ".jpg2"));
    assert!(!text::str_ends_with("g", ".jpg"));
}
