use window_controls::caption::{caption_action, toggle_maximize, CaptionAction, MaximizeOp};
use window_controls::geometry::{overlay_rect, overlay_rect_in_range, scaled, OverlayRect, BUTTON_WIDTH};
use window_controls::models::TitleBarColors;
use window_controls::scripts::{colors_script, height_script, InitScript, OverlaySetup, WindowControlsBuilderExt};

#[test]
fn height_script_sets_the_global() {
    assert_eq!(height_script(32), "window.__TBO_HEIGHT__=32;");
    assert_eq!(height_script(0), "window.__TBO_HEIGHT__=0;");
    assert_eq!(height_script(u32::MAX), "window.__TBO_HEIGHT__=4294967295;");
}

#[test]
fn colors_script_frames_both_themes() {
    assert_eq!(
        colors_script(Some("{\"symbol\":\"#000000\"}"), Some("{}")),
        "window.__TBO_COLORS__={\"light\":{\"symbol\":\"#000000\"},\"dark\":{}};"
    );
    assert_eq!(
        colors_script(None, Some("{\"hover\":\"#333\"}")),
        "window.__TBO_COLORS__={\"light\":{},\"dark\":{\"hover\":\"#333\"}};"
    );
}

#[test]
fn default_colors_override_nothing() {
    let c = TitleBarColors::default();
    assert!(c.default.is_none() && c.symbol.is_none() && c.hover.is_none());
    assert!(c.pressed.is_none() && c.inactive.is_none());
}

#[test]
fn enabling_the_overlay_drops_the_frame() {
    let s = OverlaySetup::new().set_title_bar_overlay(true);
    assert_eq!(s.decorations, Some(false));
    assert_eq!(s.shadow, Some(true));
    assert_eq!(s.scripts.len(), 1);
    assert!(matches!(s.scripts[0], InitScript::Bootstrap));
}

#[test]
fn disabled_overlay_asks_nothing() {
    let s = OverlaySetup::new().set_title_bar_overlay(false);
    assert_eq!(s.decorations, None);
    assert_eq!(s.shadow, None);
    assert!(s.scripts.is_empty());
}

#[test]
fn setters_in_either_order_ask_the_same() {
    let a = OverlaySetup::new().set_title_bar_height(40).set_title_bar_overlay(true);
    let b = OverlaySetup::new().set_title_bar_overlay(true).set_title_bar_height(40);
    assert_eq!(a.decorations, b.decorations);
    assert_eq!(a.shadow, b.shadow);
    assert_eq!(a.scripts.len(), 2);
    assert!(matches!(&a.scripts[0], InitScript::Source(s) if s == "window.__TBO_HEIGHT__=40;"));
    assert!(matches!(&b.scripts[1], InitScript::Source(s) if s == "window.__TBO_HEIGHT__=40;"));
    assert!(matches!(a.scripts[1], InitScript::Bootstrap));
    assert!(matches!(b.scripts[0], InitScript::Bootstrap));
}

#[test]
fn colors_are_kept_for_the_page() {
    let light = TitleBarColors { symbol: Some("#111111".to_string()), ..TitleBarColors::default() };
    let s = OverlaySetup::new().set_title_bar_colors(light, TitleBarColors::default());
    match &s.scripts[0] {
        InitScript::Colors { light, dark } => {
            assert_eq!(light.symbol.as_deref(), Some("#111111"));
            assert!(dark.symbol.is_none());
        }
        _ => panic!("expected the color script"),
    }
}

#[test]
fn caption_actions_are_read_by_name() {
    assert_eq!(caption_action("minimize"), CaptionAction::Minimize);
    assert_eq!(caption_action("toggle-maximize"), CaptionAction::ToggleMaximize);
    assert_eq!(caption_action("close"), CaptionAction::Close);
    assert_eq!(caption_action("maximize"), CaptionAction::Ignore);
    assert_eq!(caption_action(""), CaptionAction::Ignore);
    assert_eq!(caption_action("Close"), CaptionAction::Ignore);
}

#[test]
fn toggling_restores_a_maximized_window() {
    assert_eq!(toggle_maximize(true), MaximizeOp::Unmaximize);
    assert_eq!(toggle_maximize(false), MaximizeOp::Maximize);
}

#[test]
fn scaling_rounds_to_the_nearest_pixel() {
    assert_eq!(scaled(BUTTON_WIDTH, 96), 46);
    assert_eq!(scaled(46, 120), 58);
    assert_eq!(scaled(46, 144), 69);
    assert_eq!(scaled(32, 168), 56);
    assert_eq!(scaled(1, 48), 1);
    assert_eq!(scaled(1, 47), 0);
    assert_eq!(scaled(0, 192), 0);
}

#[test]
fn overlay_covers_the_maximize_button() {
    assert_eq!(overlay_rect(1000, 96, 32), OverlayRect { x: 908, y: 0, width: 46, height: 32 });
    assert_eq!(overlay_rect(1000, 144, 32), OverlayRect { x: 862, y: 0, width: 69, height: 48 });
    assert_eq!(overlay_rect(10, 0, 0), OverlayRect { x: 8, y: 0, width: 1, height: 1 });
}

#[test]
fn overlay_placement_range() {
    assert!(overlay_rect_in_range(1000, 96));
    assert!(overlay_rect_in_range(0, 96));
    assert!(!overlay_rect_in_range(i32::MIN, 96));
    assert!(!overlay_rect_in_range(i32::MAX, u32::MAX));
    assert!(overlay_rect_in_range(i32::MAX, 96));
}
