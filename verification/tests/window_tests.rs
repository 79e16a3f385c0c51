use chosen_visualizer::settings::{Settings, TaskbarEdge};
use chosen_visualizer::window::{
    choose_display_area, display_area_from_rect, extended_style, native_plan, platform_note,
    strip_area, viewport_plan, DisplayArea, NativePlacement, ZOrder, WS_EX_LAYERED,
    WS_EX_TRANSPARENT,
};

fn area(x: i32, y: i32, width: i32, height: i32) -> DisplayArea {
    DisplayArea { x, y, width, height }
}

#[test]
fn work_rect_to_area() {
    assert_eq!(display_area_from_rect(0, 0, 1920, 1040), area(0, 0, 1920, 1040));
    assert_eq!(display_area_from_rect(-1280, 100, 0, 1124), area(-1280, 100, 1280, 1024));
}

#[test]
fn display_area_fallbacks() {
    let work = Some(area(0, 0, 1920, 1040));
    let inner = Some(area(5, 6, 700, 300));
    assert_eq!(choose_display_area(work, inner, Some((3840, 2160))), area(0, 0, 1920, 1040));
    assert_eq!(choose_display_area(None, inner, Some((3840, 2160))), area(5, 6, 700, 300));
    assert_eq!(choose_display_area(None, None, Some((3840, 2160))), area(0, 0, 3840, 2160));
    assert_eq!(choose_display_area(None, None, None), area(0, 0, 1920, 1080));
}

#[test]
fn platform_note_only_off_windows() {
    assert_eq!(platform_note(true), None);
    assert_eq!(
        platform_note(false),
        Some("Native desktop widget and taskbar strip placement are implemented for Windows.")
    );
}

#[test]
fn viewport_plan_follows_settings() {
    let mut s = Settings::default();
    s.desktop_only = false;
    s.always_on_top = true;
    s.frameless = true;
    let plan = viewport_plan(&s);
    assert!(plan.always_on_top);
    assert!(!plan.decorations);
    assert_eq!(plan.placement, Some(area(120, 120, 760, 260)));
    s.desktop_widget = false;
    s.frameless = false;
    let plan = viewport_plan(&s);
    assert!(plan.decorations);
    assert_eq!(plan.placement, None);
}

#[test]
fn desktop_only_window_stays_at_the_bottom() {
    let mut s = Settings::default();
    s.desktop_only = true;
    s.always_on_top = true;
    assert!(!viewport_plan(&s).always_on_top);
    let plan = native_plan(&s);
    assert_eq!(
        plan.placement,
        NativePlacement::Widget { z: ZOrder::Bottom, area: Some(area(120, 120, 760, 260)) }
    );
    s.desktop_widget = false;
    assert_eq!(native_plan(&s).placement, NativePlacement::Widget { z: ZOrder::Bottom, area: None });
}

#[test]
fn widget_on_top_only_when_not_desktop_only() {
    let mut s = Settings::default();
    s.desktop_only = false;
    s.always_on_top = true;
    assert_eq!(
        native_plan(&s).placement,
        NativePlacement::Widget { z: ZOrder::TopMost, area: Some(area(120, 120, 760, 260)) }
    );
    s.always_on_top = false;
    assert!(matches!(native_plan(&s).placement, NativePlacement::Widget { z: ZOrder::Bottom, .. }));
}

#[test]
fn strip_and_plain_windows() {
    let mut s = Settings::default();
    s.desktop_widget = false;
    s.desktop_only = false;
    s.taskbar_strip = true;
    s.taskbar_edge = TaskbarEdge::Left;
    s.always_on_top = true;
    s.click_through = true;
    let plan = native_plan(&s);
    assert!(plan.click_through);
    assert_eq!(plan.placement, NativePlacement::Strip { z: ZOrder::TopMost, edge: TaskbarEdge::Left });
    s.taskbar_strip = false;
    s.always_on_top = false;
    assert_eq!(native_plan(&s).placement, NativePlacement::Stacking { z: ZOrder::NoTopMost });
}

#[test]
fn click_through_style_bits() {
    assert_eq!(WS_EX_LAYERED, 0x0008_0000);
    assert_eq!(WS_EX_TRANSPARENT, 0x20);
    assert_eq!(extended_style(0x100, true), 0x0008_0120);
    assert_eq!(extended_style(0x0008_0120, false), 0x0008_0100);
    assert_eq!(extended_style(0x100, false), 0x100);
}

#[test]
fn strip_rectangles_per_edge() {
    let (l, t, r, b) = (0, 0, 1920, 1040);
    assert_eq!(strip_area(l, t, r, b, TaskbarEdge::Bottom, 96), area(0, 944, 1920, 96));
    assert_eq!(strip_area(l, t, r, b, TaskbarEdge::Top, 96), area(0, 0, 1920, 96));
    assert_eq!(strip_area(l, t, r, b, TaskbarEdge::Left, 96), area(0, 0, 96, 1040));
    assert_eq!(strip_area(l, t, r, b, TaskbarEdge::Right, 96), area(1824, 0, 96, 1040));
}
