use chosen_visualizer::presets::{
    placement_geometry, PlacementAnchor, PlacementPreset, PlacementSize, ScaledSizes,
    VisualizerPreset,
};
use chosen_visualizer::settings::{
    default_visualizer_count, ColorPreset, Rgb, Settings, TaskbarEdge, VisualizerMode,
};
use chosen_visualizer::window::DisplayArea;

fn rgb(r: u8, g: u8, b: u8) -> Rgb {
    Rgb { r, g, b }
}

#[test]
fn labels_of_modes_presets_and_edges() {
    let modes: Vec<&str> = VisualizerMode::ALL.iter().map(|m| m.label()).collect();
    assert_eq!(modes, ["Bars", "Mirror bars", "Waveform", "Radial", "Particles"]);
    let presets: Vec<&str> = ColorPreset::ALL.iter().map(|p| p.label()).collect();
    assert_eq!(
        presets,
        ["Slate", "Graphite", "Ember", "Forest", "Steel", "Cover art (coming soon)", "Custom"]
    );
    let edges: Vec<&str> = TaskbarEdge::ALL.iter().map(|e| e.label()).collect();
    assert_eq!(edges, ["Bottom", "Top", "Left", "Right"]);
}

#[test]
fn preset_colors() {
    assert_eq!(ColorPreset::Slate.colors([0, 0, 0]), (rgb(184, 196, 211), rgb(88, 111, 140)));
    assert_eq!(ColorPreset::Ember.colors([9, 9, 9]), (rgb(226, 167, 118), rgb(146, 80, 54)));
    assert_eq!(ColorPreset::CoverArt.colors([1, 2, 3]), (rgb(198, 111, 194), rgb(104, 55, 121)));
}

#[test]
fn custom_color_secondary_is_darker_blend() {
    // (c * 3 + 36) / 5 for each channel
    assert_eq!(
        ColorPreset::Custom.colors([194, 74, 190]),
        (rgb(194, 74, 190), rgb(123, 51, 121))
    );
    assert_eq!(ColorPreset::Custom.colors([255, 0, 10]), (rgb(255, 0, 10), rgb(160, 7, 13)));
}

#[test]
fn default_settings() {
    let s = Settings::default();
    assert_eq!(s.mode, VisualizerMode::Bars);
    assert_eq!(s.color_preset, ColorPreset::Custom);
    assert_eq!(s.custom_color, [194, 74, 190]);
    assert_eq!(s.bars, 72);
    assert_eq!((s.desktop_x, s.desktop_y, s.desktop_width, s.desktop_height), (120, 120, 760, 260));
    assert_eq!(s.target_fps, 60);
    assert_eq!(s.visualizer_count, 1);
    assert_eq!(default_visualizer_count(), 1);
    assert!(s.desktop_widget && s.desktop_only && s.visualizer_only_widget);
    assert!(!s.click_through);
    assert!(!s.taskbar_strip);
    assert_eq!(s.accent_colors(), (rgb(194, 74, 190), rgb(123, 51, 121)));
}

#[test]
fn normalize_limits_every_number() {
    let mut s = Settings::default();
    s.bars = 4;
    s.desktop_x = -50000;
    s.desktop_y = 50000;
    s.desktop_width = 10;
    s.desktop_height = 9999;
    s.target_fps = 1000;
    s.visualizer_count = 0;
    s.taskbar_strip = true;
    s.normalize();
    assert_eq!(s.bars, 16);
    assert_eq!((s.desktop_x, s.desktop_y), (-20000, 20000));
    assert_eq!((s.desktop_width, s.desktop_height), (240, 2160));
    assert_eq!(s.target_fps, 144);
    assert_eq!(s.visualizer_count, 1);
    assert!(s.taskbar_strip);
    s.bars = 500;
    s.visualizer_count = 9;
    s.target_fps = 5;
    s.normalize();
    assert_eq!((s.bars, s.visualizer_count, s.target_fps), (192, 6, 30));
}

#[test]
fn desktop_widget_is_frameless_and_bare() {
    let mut s = Settings::default();
    s.show_grid = true;
    s.normalize();
    assert!(s.frameless && !s.show_grid);
    assert!(!s.show_top_bar && !s.show_meter);
}

#[test]
fn desktop_only_is_never_on_top() {
    let mut s = Settings::default();
    s.desktop_widget = false;
    s.desktop_only = true;
    s.always_on_top = true;
    s.normalize();
    assert!(!s.always_on_top);
    s.desktop_only = false;
    s.always_on_top = true;
    s.normalize();
    assert!(s.always_on_top);
}

#[test]
fn cover_art_source_is_trimmed_or_cleared() {
    let mut s = Settings::default();
    s.color_preset = ColorPreset::Slate;
    s.cover_art_source = "  \t https://example.com/a.png \n".to_owned();
    s.normalize();
    assert_eq!(s.cover_art_source, "https://example.com/a.png");
    s.cover_art_source = "\u{3000}cover.jpg\u{a0}".to_owned();
    s.normalize();
    assert_eq!(s.cover_art_source, "cover.jpg");
    s.color_preset = ColorPreset::CoverArt;
    s.normalize();
    assert_eq!(s.cover_art_source, "");
}

#[test]
fn normalizing_twice_changes_nothing_more() {
    let mut a = Settings::default();
    a.bars = 1;
    a.always_on_top = true;
    a.cover_art_source = "  x  ".to_owned();
    a.color_preset = ColorPreset::Forest;
    a.normalize();
    let once = (a.bars, a.always_on_top, a.cover_art_source.clone(), a.show_top_bar, a.frameless);
    a.normalize();
    let twice = (a.bars, a.always_on_top, a.cover_art_source.clone(), a.show_top_bar, a.frameless);
    assert_eq!(once, twice);
}

#[test]
fn ordinary_window_settings_are_kept() {
    let mut s = Settings::default();
    s.desktop_widget = false;
    s.desktop_only = false;
    s.show_grid = true;
    s.frameless = false;
    s.show_top_bar = true;
    s.normalize();
    assert!(s.show_grid && !s.frameless && s.show_top_bar);
    assert!(s.shows_top_bar());
    assert!(!s.hides_overlays());
}

#[test]
fn settings_switches() {
    let mut s = Settings::default();
    s.desktop_widget = false;
    s.visualizer_only_widget = false;
    s.set_desktop_widget(true);
    assert!(s.desktop_widget && s.visualizer_only_widget);
    s.set_desktop_widget(false);
    assert!(!s.desktop_widget && s.visualizer_only_widget);
    s.always_on_top = true;
    s.set_desktop_only(true);
    assert!(s.desktop_only && !s.always_on_top);
    s.desktop_widget = false;
    s.show_top_bar = true;
    s.enter_visualizer_only();
    assert!(s.desktop_widget && s.visualizer_only_widget && s.frameless && !s.show_top_bar);
    assert!(!s.shows_top_bar());
    assert!(s.hides_overlays());
}

#[test]
fn visualizer_presets() {
    let labels: Vec<&str> = VisualizerPreset::ALL.iter().map(|p| p.label()).collect();
    assert_eq!(labels, ["Clean bars", "Mirror glow", "Wave ribbon", "Radial pulse", "Particle field"]);
    let mut s = Settings::default();
    s.apply_visualizer_preset(VisualizerPreset::MirrorGlow);
    assert_eq!(s.mode, VisualizerMode::MirrorBars);
    assert_eq!(s.color_preset, ColorPreset::Ember);
    assert_eq!(s.bars, 72);
    assert!(s.show_peaks);
    s.apply_visualizer_preset(VisualizerPreset::WaveRibbon);
    assert_eq!((s.mode, s.color_preset, s.bars, s.show_peaks), (VisualizerMode::Waveform, ColorPreset::Forest, 128, false));
    s.apply_visualizer_preset(VisualizerPreset::ParticleField);
    assert_eq!((s.mode, s.color_preset, s.bars), (VisualizerMode::Particles, ColorPreset::Graphite, 64));
}

fn full_hd() -> DisplayArea {
    DisplayArea { x: 0, y: 0, width: 1920, height: 1040 }
}

// Sizes for a 1920x1040 work area: width * ratio and height * ratio rounded,
// margin = round(1040 * 0.035) = 36, two thirds down = round(1040 * 0.66) = 686.
fn scaled(width: i32, height: i32) -> ScaledSizes {
    ScaledSizes { width, height, margin: 36, two_thirds_down: 686 }
}

#[test]
fn placement_presets_in_order() {
    let all = PlacementPreset::all();
    let labels: Vec<&str> = all.iter().map(|p| p.label()).collect();
    assert_eq!(
        labels,
        ["Top left", "Top", "Top right", "Left", "Center", "Right", "Lower third", "Bottom left", "Bottom", "Bottom right", "Top band", "Bottom band"]
    );
    assert_eq!(all[10].size, PlacementSize::Band);
    assert_eq!(PlacementSize::Compact.ratios_permille(), (300, 160));
    assert_eq!(PlacementSize::Wide.ratios_permille(), (460, 180));
    assert_eq!(PlacementSize::Band.ratios_permille(), (720, 140));
}

#[test]
fn placement_geometry_per_anchor() {
    let area = full_hd();
    // compact: 576 x 166
    let compact = scaled(576, 166);
    assert_eq!(placement_geometry(PlacementAnchor::TopLeft, area, compact), (36, 36, 576, 166));
    assert_eq!(placement_geometry(PlacementAnchor::TopRight, area, compact), (1308, 36, 576, 166));
    assert_eq!(placement_geometry(PlacementAnchor::Left, area, compact), (36, 437, 576, 166));
    assert_eq!(placement_geometry(PlacementAnchor::BottomRight, area, compact), (1308, 838, 576, 166));
    // wide: 883 x 187
    let wide = scaled(883, 187);
    assert_eq!(placement_geometry(PlacementAnchor::Center, area, wide), (518, 426, 883, 187));
    assert_eq!(placement_geometry(PlacementAnchor::LowerThird, area, wide), (518, 593, 883, 187));
    // band: 1382 x 146, width limited to 1600 at most
    let band = scaled(1382, 146);
    assert_eq!(placement_geometry(PlacementAnchor::BottomBand, area, band), (36, 858, 1382, 146));
    assert_eq!(placement_geometry(PlacementAnchor::TopBand, area, scaled(5000, 10)), (36, 36, 1600, 96));
}

#[test]
fn center_wide_placement_on_a_full_screen() {
    // 1920x1080: width round(1920 * 0.46) = 883, height round(1080 * 0.18) = 194,
    // margin round(1080 * 0.035) = 38, two thirds down round(1080 * 0.66) = 713.
    let area = DisplayArea { x: 0, y: 0, width: 1920, height: 1080 };
    let sizes = ScaledSizes { width: 883, height: 194, margin: 38, two_thirds_down: 713 };
    let mut s = Settings::default();
    s.desktop_widget = false;
    s.visualizer_only_widget = false;
    s.show_grid = true;
    s.click_through = false;
    let before = Settings::default();
    let preset = PlacementPreset::new("Center", PlacementAnchor::Center, PlacementSize::Wide);
    s.apply_placement_preset(preset, area, sizes);
    assert_eq!((s.desktop_x, s.desktop_y, s.desktop_width, s.desktop_height), (518, 443, 883, 194));
    assert!(s.desktop_widget && s.visualizer_only_widget && s.frameless && !s.show_grid);
    assert!(!s.click_through);
    assert_eq!(s.mode, before.mode);
    assert_eq!(s.show_top_bar, before.show_top_bar);
    assert_eq!(s.target_fps, before.target_fps);
}

#[test]
fn placement_on_small_area_centers_with_truncation() {
    let area = DisplayArea { x: 10, y: 20, width: 101, height: 50 };
    let s = ScaledSizes { width: 30, height: 8, margin: 2, two_thirds_down: 33 };
    // width 280, height 96, margin 18; (101 - 280) / 2 = -89, (50 - 96) / 2 = -23
    assert_eq!(placement_geometry(PlacementAnchor::Center, area, s), (-79, -3, 280, 96));
}

#[test]
fn applying_a_placement_makes_a_bare_widget() {
    let mut s = Settings::default();
    s.desktop_widget = false;
    s.visualizer_only_widget = false;
    s.frameless = false;
    s.show_grid = true;
    let preset = PlacementPreset::new("Top", PlacementAnchor::Top, PlacementSize::Wide);
    s.apply_placement_preset(preset, full_hd(), scaled(883, 187));
    assert!(s.desktop_widget && s.visualizer_only_widget && s.frameless && !s.show_grid);
    assert_eq!((s.desktop_x, s.desktop_y, s.desktop_width, s.desktop_height), (518, 36, 883, 187));
}

#[test]
fn chosen_taskbar_strip_survives_normalize() {
    let mut s = Settings::default();
    s.desktop_widget = false;
    s.desktop_only = false;
    s.taskbar_strip = true;
    s.taskbar_edge = TaskbarEdge::Top;
    s.normalize();
    assert!(s.taskbar_strip);
    assert_eq!(s.taskbar_edge, TaskbarEdge::Top);
}

#[test]
fn click_through_switched_off_stays_off() {
    let mut s = Settings::default();
    assert!(s.desktop_widget && s.visualizer_only_widget);
    s.click_through = false;
    s.normalize();
    assert!(!s.click_through);
    s.normalize();
    assert!(!s.click_through);
}

#[test]
fn widget_switches_leave_click_through_alone() {
    for on in [false, true] {
        let mut s = Settings::default();
        s.click_through = on;
        s.desktop_widget = false;
        s.set_desktop_widget(true);
        assert_eq!(s.click_through, on);
        s.enter_visualizer_only();
        assert_eq!(s.click_through, on);
        let preset = PlacementPreset::new("Top", PlacementAnchor::Top, PlacementSize::Wide);
        s.apply_placement_preset(preset, full_hd(), scaled(883, 187));
        assert_eq!(s.click_through, on);
        s.normalize();
        assert_eq!(s.click_through, on);
    }
}
