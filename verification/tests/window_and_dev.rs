use project_z::dev_tools::{screenshot_file_name, screenshot_file_name_at, DevKey, DevPlugins, DevTool};
use project_z::window::{craft_window_title, window_icon, IconError};

#[test]
fn window_title_lists_version_commit_and_compiler() {
    assert_eq!(
        craft_window_title("0.1.0", "abc1234", "1.83.0"),
        "Project Z v0.1.0 - abc1234 with 1.83.0"
    );
    assert_eq!(craft_window_title("", "", ""), "Project Z v -  with ");
}

#[test]
fn icon_from_fitting_data() {
    assert!(window_icon(vec![255; 2 * 3 * 4], 2, 3).is_ok());
    assert!(window_icon(Vec::new(), 0, 0).is_ok());
}

#[test]
fn icon_with_partial_pixel_is_refused() {
    match window_icon(vec![0; 7], 1, 1) {
        Err(e) => assert_eq!(e, IconError::ByteCountNotDivisibleBy4 { byte_count: 7 }),
        Ok(_) => panic!("7 bytes are not whole pixels"),
    }
}

#[test]
fn icon_with_wrong_pixel_count_is_refused() {
    match window_icon(vec![0; 16], 3, 2) {
        Err(e) => assert_eq!(
            e,
            IconError::DimensionsVsPixelCount { width: 3, height: 2, width_x_height: 6, pixel_count: 4 }
        ),
        Ok(_) => panic!("4 pixels do not make a 3x2 image"),
    }
}

#[test]
fn dev_build_adds_every_tool() {
    assert_eq!(
        DevPlugins.tools(true),
        vec![
            DevTool::LogTransitions,
            DevTool::ExitOnEscape,
            DevTool::Screenshot,
            DevTool::ProgressDebug,
            DevTool::FrameTimeDiagnostics,
            DevTool::FpsOverlay,
            DevTool::WorldInspector,
        ]
    );
    assert!(DevPlugins.tools(false).is_empty());
    assert_eq!(DevTool::ExitOnEscape.key(), Some(DevKey::Escape));
    assert_eq!(DevTool::Screenshot.key(), Some(DevKey::F11));
    assert_eq!(DevTool::WorldInspector.key(), Some(DevKey::F1));
    assert_eq!(DevTool::FpsOverlay.key(), None);
    assert_eq!(DevTool::WorldInspector.starts_active(), Some(false));
    assert_eq!(DevTool::Screenshot.starts_active(), None);
}

#[test]
fn screenshot_names_replace_separators() {
    assert_eq!(
        screenshot_file_name_at("2024-01-02 3:04:05.0 +00:00:00"),
        "screenshot_2024_01_02_3_04_05.0__00_00_00.png"
    );
    assert_eq!(screenshot_file_name_at(""), "screenshot_.png");
    assert_eq!(screenshot_file_name_at("é-ü"), "screenshot_é_ü.png");
}

#[test]
fn screenshot_name_of_now() {
    let name = screenshot_file_name();
    assert!(name.starts_with("screenshot_"));
    assert!(name.ends_with(".png"));
    let stamp = &name["screenshot_".len()..name.len() - ".png".len()];
    assert!(!stamp.contains(':') && !stamp.contains('+') && !stamp.contains(' ') && !stamp.contains('-'));
    assert!(!stamp.is_empty());
}
