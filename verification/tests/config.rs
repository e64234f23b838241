use rustshot::canvas::{Color, ToolKind};
use rustshot::config::{
    auto_save_path, config_path, expand_tilde, palette_colors, parse_color, parse_tool, Config,
    Defaults,
};
use rustshot::dbus::{kind_for_screen, pick_screen, plan_outputs, resolve_save_path, CaptureKind, Outputs};
use rustshot::capture::Screen;
use rustshot::error::Error;

#[test]
fn defaults_match_documentation() {
    let d = Defaults::default();
    assert_eq!(d.save_dir, "~/Pictures/screenshots");
    assert_eq!(d.filename_pattern, "%Y%m%d-%H%M%S.png");
    assert_eq!(d.color, "#ff3232");
    assert_eq!(d.pixelate_block, 10);
    assert_eq!(f32::from_bits(d.counter_radius.bits), 16.0);
    assert_eq!(f32::from_bits(d.width.bits), 4.0);
    assert_eq!(d.initial_tool, "rect");
    assert_eq!(parse_tool(&d.initial_tool), Some(ToolKind::Rect));
    let c = Config::default();
    assert!(!c.capture.include_cursor);
    assert_eq!(c.palette.colors.len(), 8);
}

#[test]
fn parse_color_forms() {
    assert_eq!(parse_color("#ff3232"), Some(Color { r: 255, g: 50, b: 50, a: 255 }));
    assert_eq!(parse_color("#FFC80080"), Some(Color { r: 255, g: 200, b: 0, a: 128 }));
    assert_eq!(parse_color("ff3232"), None);
    assert_eq!(parse_color("#ff323"), None);
    assert_eq!(parse_color("#gg0000"), None);
    assert_eq!(parse_color(""), None);
}

#[test]
fn palette_skips_bad_colors() {
    let names = vec!["#000000".to_string(), "nope".to_string(), "#ffffff".to_string()];
    assert_eq!(
        palette_colors(&names),
        vec![Color { r: 0, g: 0, b: 0, a: 255 }, Color { r: 255, g: 255, b: 255, a: 255 }]
    );
}

#[test]
fn parse_tool_names() {
    assert_eq!(parse_tool("pencil"), Some(ToolKind::Pencil));
    assert_eq!(parse_tool("arrow"), Some(ToolKind::Arrow));
    assert_eq!(parse_tool("rect"), Some(ToolKind::Rect));
    assert_eq!(parse_tool("ellipse"), Some(ToolKind::Ellipse));
    assert_eq!(parse_tool("blur"), Some(ToolKind::Blur));
    assert_eq!(parse_tool("counter"), Some(ToolKind::Counter));
    assert_eq!(parse_tool("Rect"), None);
    assert_eq!(parse_tool(""), None);
}

#[test]
fn tilde_expands_with_home() {
    assert_eq!(expand_tilde("~/Pictures/shots", Some("/home/u")), "/home/u/Pictures/shots");
    assert_eq!(expand_tilde("~", Some("/home/u")), "/home/u");
    assert_eq!(expand_tilde("~/x", None), "~/x");
    assert_eq!(expand_tilde("/tmp/x", Some("/home/u")), "/tmp/x");
    assert_eq!(expand_tilde("~user/x", Some("/home/u")), "~user/x");
}

#[test]
fn auto_save_path_joins() {
    // 2024-01-01 12:00:00 UTC.
    let t: i64 = 1_704_110_400;
    assert_eq!(
        auto_save_path("~/Pictures/screenshots", "%Y%m%d-%H%M%S.png", t, 0, Some("/home/u")),
        Some("/home/u/Pictures/screenshots/20240101-120000.png".to_string())
    );
    assert_eq!(
        auto_save_path("/tmp", "%H%M.png", t, 3600, None),
        Some("/tmp/1300.png".to_string())
    );
    assert_eq!(auto_save_path("/tmp/", "a.png", 0, 0, None), Some("/tmp/a.png".to_string()));
    assert_eq!(auto_save_path("", "shot.png", 0, 0, None), Some("shot.png".to_string()));
}

#[test]
fn auto_save_path_refuses_bad_input() {
    assert_eq!(auto_save_path("/tmp", "%Q.png", 0, 0, None), None);
    assert_eq!(auto_save_path("/tmp", "%Y.png", 0, 86_400, None), None);
    assert_eq!(auto_save_path("/tmp", "%Y.png", i64::MAX, 0, None), None);
}

#[test]
fn path_join_separator_rules() {
    assert_eq!(expand_tilde("~/x", Some("/home/u/")), "/home/u/x");
    assert_eq!(expand_tilde("~//etc", Some("/home/u")), "/etc");
    assert_eq!(expand_tilde("~/x", Some("")), "x");
}

#[test]
fn config_path_under_config_dir() {
    assert_eq!(config_path(Some("/home/u/.config")), "/home/u/.config/rustshot/config.toml");
    assert_eq!(config_path(None), "./rustshot/config.toml");
}

#[test]
fn resolve_save_path_rules() {
    assert_eq!(resolve_save_path("a.png".into(), true, "auto.png".into()), "");
    assert_eq!(resolve_save_path("a.png".into(), false, "auto.png".into()), "a.png");
    assert_eq!(resolve_save_path(String::new(), false, "auto.png".into()), "auto.png");
}

#[test]
fn screen_number_kinds() {
    assert_eq!(kind_for_screen(-1), CaptureKind::CursorScreen);
    assert_eq!(kind_for_screen(0), CaptureKind::Screen(0));
    assert_eq!(kind_for_screen(2), CaptureKind::Screen(2));
}

#[test]
fn pick_screen_range() {
    let s = vec![Screen { x: 0, y: 0, width: 10, height: 10 }];
    assert_eq!(pick_screen(&s, 0), Ok(s[0]));
    assert_eq!(pick_screen(&s, 1), Err(Error::ScreenOutOfRange { index: 1 }));
}

#[test]
fn output_plans() {
    assert_eq!(plan_outputs("", false), Outputs { save: false, copy: false });
    assert_eq!(plan_outputs("a.png", true), Outputs { save: true, copy: true });
}
