use intergen::capture::{
    blend_export_filename, kind_slug, manual_screenshot_filename, parse_launch_config, parse_u32,
    unique_blend_export_path, AutomatedCapture, PolyhedronKind, ScreenshotCounter,
};

const DEFAULT_CAPTURE_DELAY_FRAMES: u32 = 8;

fn args(values: &[&str]) -> Vec<String> {
    values.iter().map(|value| value.to_string()).collect()
}

#[test]
fn launch_config_parses_capture_path() {
    let config = parse_launch_config(
        &args(&["--capture", "screenshots/test.png"]),
        DEFAULT_CAPTURE_DELAY_FRAMES,
    )
    .expect("capture path should parse");

    assert_eq!(config.capture_path.as_deref(), Some("screenshots/test.png"));
    assert_eq!(config.capture_delay_frames, DEFAULT_CAPTURE_DELAY_FRAMES);
    assert_eq!(config.blend_export_path, None);
    assert_eq!(config.blend_export_delay_frames, DEFAULT_CAPTURE_DELAY_FRAMES);
}

#[test]
fn launch_config_parses_capture_delay_frames() {
    let config = parse_launch_config(
        &args(&["--capture-delay-frames", "64"]),
        DEFAULT_CAPTURE_DELAY_FRAMES,
    )
    .expect("capture delay should parse");

    assert_eq!(config.capture_delay_frames, 64);
    assert_eq!(config.capture_path, None);
    assert_eq!(config.blend_export_path, None);
}

#[test]
fn launch_config_parses_blend_export_path_and_delay() {
    let config = parse_launch_config(
        &args(&[
            "--export-blend",
            "blend-exports/test.blend",
            "--export-blend-delay-frames",
            "96",
        ]),
        DEFAULT_CAPTURE_DELAY_FRAMES,
    )
    .expect("blend export args should parse");

    assert_eq!(config.blend_export_path.as_deref(), Some("blend-exports/test.blend"));
    assert_eq!(config.blend_export_delay_frames, 96);
    assert_eq!(config.capture_path, None);
}

#[test]
fn launch_config_reports_each_error() {
    let parse = |values: &[&str]| parse_launch_config(&args(values), DEFAULT_CAPTURE_DELAY_FRAMES).err();

    assert_eq!(parse(&["--capture"]).as_deref(), Some("Missing path after --capture"));
    assert_eq!(
        parse(&["--capture-delay-frames"]).as_deref(),
        Some("Missing frame count after --capture-delay-frames")
    );
    assert_eq!(
        parse(&["--capture-delay-frames", "soon"]).as_deref(),
        Some("Invalid frame count for --capture-delay-frames: soon")
    );
    assert_eq!(parse(&["--export-blend"]).as_deref(), Some("Missing path after --export-blend"));
    assert_eq!(
        parse(&["--export-blend-delay-frames"]).as_deref(),
        Some("Missing frame count after --export-blend-delay-frames")
    );
    assert_eq!(
        parse(&["--export-blend-delay-frames", "-1"]).as_deref(),
        Some("Invalid frame count for --export-blend-delay-frames: -1")
    );
    assert_eq!(parse(&["--verbose"]).as_deref(), Some("Unknown argument: --verbose"));
    assert!(parse(&["-h"]).unwrap().starts_with("Usage: cargo run -- [--capture <output.png>]"));
    assert!(parse(&["--help"]).unwrap().contains("F12 saves a screenshot"));
    assert!(parse(&[]).is_none());
}

#[test]
fn frame_counts_parse_like_unsigned_integers() {
    assert_eq!(parse_u32("0"), Some(0));
    assert_eq!(parse_u32("+12"), Some(12));
    assert_eq!(parse_u32("007"), Some(7));
    assert_eq!(parse_u32("4294967295"), Some(u32::MAX));
    assert_eq!(parse_u32("4294967296"), None);
    assert_eq!(parse_u32("99999999999999999999"), None);
    assert_eq!(parse_u32(""), None);
    assert_eq!(parse_u32("+"), None);
    assert_eq!(parse_u32("-3"), None);
    assert_eq!(parse_u32("1 2"), None);
    for text in ["0", "+5", "123456", "4294967295", "4294967296", "x", "", "+"] {
        assert_eq!(parse_u32(text), text.parse::<u32>().ok(), "{text}");
    }
}

#[test]
fn manual_screenshot_filename_includes_seconds_and_sequence() {
    let filename = manual_screenshot_filename(1_741_018_296, 45, 7);

    assert_eq!(filename, "intergen-1741018296-045-0007.png");
}

#[test]
fn screenshot_counter_numbers_each_screenshot() {
    let mut counter = ScreenshotCounter::default();

    assert_eq!(counter.next_filename(10, 5), "intergen-10-005-0000.png");
    assert_eq!(counter.next_filename(10, 6), "intergen-10-006-0001.png");
    assert_eq!(counter.next_index, 2);
}

#[test]
fn export_filename_uses_root_kind_slug() {
    let file_name = blend_export_filename(PolyhedronKind::Octahedron, 42, 0);

    assert!(file_name.contains("octahedron"));
    assert!(file_name.ends_with(".blend"));
}

#[test]
fn export_filenames_number_later_exports() {
    assert_eq!(blend_export_filename(PolyhedronKind::Cube, 42, 0), "intergen-42-cube.blend");
    assert_eq!(blend_export_filename(PolyhedronKind::Cube, 42, 3), "intergen-42-cube-3.blend");
    assert_eq!(kind_slug(PolyhedronKind::Dodecahedron), "dodecahedron");

    let taken = vec![
        "blend-exports/intergen-42-tetrahedron.blend".to_string(),
        "blend-exports/intergen-42-tetrahedron-1.blend".to_string(),
    ];
    assert_eq!(
        unique_blend_export_path("blend-exports", PolyhedronKind::Tetrahedron, 42, &taken),
        "blend-exports/intergen-42-tetrahedron-2.blend"
    );
    assert_eq!(
        unique_blend_export_path("blend-exports", PolyhedronKind::Tetrahedron, 43, &taken),
        "blend-exports/intergen-43-tetrahedron.blend"
    );
}

#[test]
fn automated_capture_fires_once_at_its_frame() {
    let mut capture = AutomatedCapture::new("out.png".to_string(), 8);

    assert!(!capture.fires_at(3));
    assert!(capture.fires_at(8));
    assert!(!capture.fires_at(9));
    assert!(capture.requested);
}
