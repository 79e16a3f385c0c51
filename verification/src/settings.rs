//! The persisted choices of the visualizer window, and how they are kept consistent.
use vstd::prelude::*;

use crate::text::{lemma_trim_idempotent, trim, trim_seq};

verus! {

/// How the spectrum is drawn.
#[derive(Clone, Copy, Debug, PartialEq, Eq, Structural)]
pub enum VisualizerMode {
    Bars,
    MirrorBars,
    Waveform,
    Radial,
    Particles,
}

impl VisualizerMode {
    pub const ALL: [VisualizerMode; 5] = [
        VisualizerMode::Bars,
        VisualizerMode::MirrorBars,
        VisualizerMode::Waveform,
        VisualizerMode::Radial,
        VisualizerMode::Particles,
    ];

    pub open spec fn spec_label(self) -> Seq<char> {
        match self {
            VisualizerMode::Bars => "Bars"@,
            VisualizerMode::MirrorBars => "Mirror bars"@,
            VisualizerMode::Waveform => "Waveform"@,
            VisualizerMode::Radial => "Radial"@,
            VisualizerMode::Particles => "Particles"@,
        }
    }

    /// The name shown in the mode picker.
    pub fn label(self) -> (label: &'static str)
        ensures
            label@ == self.spec_label(),
    {
        match self {
            VisualizerMode::Bars => "Bars",
            VisualizerMode::MirrorBars => "Mirror bars",
            VisualizerMode::Waveform => "Waveform",
            VisualizerMode::Radial => "Radial",
            VisualizerMode::Particles => "Particles",
        }
    }
}

/// A color as red, green and blue intensities.
#[derive(Clone, Copy, Debug, PartialEq, Eq, Structural)]
pub struct Rgb {
    pub r: u8,
    pub g: u8,
    pub b: u8,
}

/// The color scheme of the visualizer.
#[derive(Clone, Copy, Debug, PartialEq, Eq, Structural)]
pub enum ColorPreset {
    Slate,
    Graphite,
    Ember,
    Forest,
    Steel,
    CoverArt,
    Custom,
}

/// The darker companion of a custom channel value.
pub open spec fn secondary_channel(c: u8) -> u8 {
    let v = (c * 3 + 36) / 5;
    if v > 255 {
        255
    } else {
        v as u8
    }
}

pub open spec fn rgb(r: u8, g: u8, b: u8) -> Rgb {
    Rgb { r, g, b }
}

impl ColorPreset {
    pub const ALL: [ColorPreset; 7] = [
        ColorPreset::Slate,
        ColorPreset::Graphite,
        ColorPreset::Ember,
        ColorPreset::Forest,
        ColorPreset::Steel,
        ColorPreset::CoverArt,
        ColorPreset::Custom,
    ];

    pub open spec fn spec_label(self) -> Seq<char> {
        match self {
            ColorPreset::Slate => "Slate"@,
            ColorPreset::Graphite => "Graphite"@,
            ColorPreset::Ember => "Ember"@,
            ColorPreset::Forest => "Forest"@,
            ColorPreset::Steel => "Steel"@,
            ColorPreset::CoverArt => "Cover art (coming soon)"@,
            ColorPreset::Custom => "Custom"@,
        }
    }

    /// The name shown in the color picker.
    pub fn label(self) -> (label: &'static str)
        ensures
            label@ == self.spec_label(),
    {
        match self {
            ColorPreset::Slate => "Slate",
            ColorPreset::Graphite => "Graphite",
            ColorPreset::Ember => "Ember",
            ColorPreset::Forest => "Forest",
            ColorPreset::Steel => "Steel",
            ColorPreset::CoverArt => "Cover art (coming soon)",
            ColorPreset::Custom => "Custom",
        }
    }

    /// The primary and secondary colors of the preset, `custom` being the
    /// user's own color.
    pub open spec fn spec_colors(self, custom: [u8; 3]) -> (Rgb, Rgb) {
        match self {
            ColorPreset::Slate => (rgb(184, 196, 211), rgb(88, 111, 140)),
            ColorPreset::Graphite => (rgb(224, 224, 220), rgb(112, 112, 108)),
            ColorPreset::Ember => (rgb(226, 167, 118), rgb(146, 80, 54)),
            ColorPreset::Forest => (rgb(167, 202, 171), rgb(74, 118, 91)),
            ColorPreset::Steel => (rgb(166, 187, 198), rgb(72, 99, 114)),
            ColorPreset::CoverArt => (rgb(198, 111, 194), rgb(104, 55, 121)),
            ColorPreset::Custom => (
                rgb(custom@[0], custom@[1], custom@[2]),
                rgb(
                    secondary_channel(custom@[0]),
                    secondary_channel(custom@[1]),
                    secondary_channel(custom@[2]),
                ),
            ),
        }
    }

    /// The primary and secondary colors of the preset.
    pub fn colors(self, custom: [u8; 3]) -> (c: (Rgb, Rgb))
        ensures
            c == self.spec_colors(custom),
    {
        match self {
            ColorPreset::Slate => (
                Rgb { r: 184, g: 196, b: 211 },
                Rgb { r: 88, g: 111, b: 140 },
            ),
            ColorPreset::Graphite => (
                Rgb { r: 224, g: 224, b: 220 },
                Rgb { r: 112, g: 112, b: 108 },
            ),
            ColorPreset::Ember => (
                Rgb { r: 226, g: 167, b: 118 },
                Rgb { r: 146, g: 80, b: 54 },
            ),
            ColorPreset::Forest => (
                Rgb { r: 167, g: 202, b: 171 },
                Rgb { r: 74, g: 118, b: 91 },
            ),
            ColorPreset::Steel => (
                Rgb { r: 166, g: 187, b: 198 },
                Rgb { r: 72, g: 99, b: 114 },
            ),
            ColorPreset::CoverArt => (
                Rgb { r: 198, g: 111, b: 194 },
                Rgb { r: 104, g: 55, b: 121 },
            ),
            ColorPreset::Custom => {
                let primary = Rgb { r: custom[0], g: custom[1], b: custom[2] };
                let secondary = Rgb {
                    r: darker_channel(custom[0]),
                    g: darker_channel(custom[1]),
                    b: darker_channel(custom[2]),
                };
                (primary, secondary)
            },
        }
    }
}

fn darker_channel(c: u8) -> (d: u8)
    ensures
        d == secondary_channel(c),
{
    let v: u16 = ((c as u16) * 3 + 36) / 5;
    if v > 255 {
        255
    } else {
        v as u8
    }
}

/// The screen edge along which a taskbar strip is placed.
#[derive(Clone, Copy, Debug, PartialEq, Eq, Structural)]
pub enum TaskbarEdge {
    Bottom,
    Top,
    Left,
    Right,
}

impl TaskbarEdge {
    pub const ALL: [TaskbarEdge; 4] = [
        TaskbarEdge::Bottom,
        TaskbarEdge::Top,
        TaskbarEdge::Left,
        TaskbarEdge::Right,
    ];

    pub open spec fn spec_label(self) -> Seq<char> {
        match self {
            TaskbarEdge::Bottom => "Bottom"@,
            TaskbarEdge::Top => "Top"@,
            TaskbarEdge::Left => "Left"@,
            TaskbarEdge::Right => "Right"@,
        }
    }

    /// The name shown in the edge picker.
    pub fn label(self) -> (label: &'static str)
        ensures
            label@ == self.spec_label(),
    {
        match self {
            TaskbarEdge::Bottom => "Bottom",
            TaskbarEdge::Top => "Top",
            TaskbarEdge::Left => "Left",
            TaskbarEdge::Right => "Right",
        }
    }
}

/// The window, placement and look choices of the visualizer. The continuous
/// tuning values of the renderer (smoothing, sensitivity, opacities and the
/// like) are floating-point numbers and are kept beside it by the application.
pub struct Settings {
    pub mode: VisualizerMode,
    pub color_preset: ColorPreset,
    pub custom_color: [u8; 3],
    pub bars: usize,
    pub show_grid: bool,
    pub show_settings: bool,
    pub show_top_bar: bool,
    pub show_peaks: bool,
    pub show_meter: bool,
    pub visualizer_only_widget: bool,
    pub compact_controls: bool,
    pub always_on_top: bool,
    pub click_through: bool,
    pub frameless: bool,
    pub desktop_widget: bool,
    pub desktop_only: bool,
    pub cover_art_source: String,
    pub desktop_x: i32,
    pub desktop_y: i32,
    pub desktop_width: i32,
    pub desktop_height: i32,
    pub taskbar_strip: bool,
    pub taskbar_edge: TaskbarEdge,
    pub target_fps: u32,
    pub visualizer_count: usize,
}

/// The mathematical value of [`Settings`].
pub struct SettingsView {
    pub mode: VisualizerMode,
    pub color_preset: ColorPreset,
    pub custom_color: [u8; 3],
    pub bars: int,
    pub show_grid: bool,
    pub show_settings: bool,
    pub show_top_bar: bool,
    pub show_peaks: bool,
    pub show_meter: bool,
    pub visualizer_only_widget: bool,
    pub compact_controls: bool,
    pub always_on_top: bool,
    pub click_through: bool,
    pub frameless: bool,
    pub desktop_widget: bool,
    pub desktop_only: bool,
    pub cover_art_source: Seq<char>,
    pub desktop_x: int,
    pub desktop_y: int,
    pub desktop_width: int,
    pub desktop_height: int,
    pub taskbar_strip: bool,
    pub taskbar_edge: TaskbarEdge,
    pub target_fps: int,
    pub visualizer_count: int,
}

impl View for Settings {
    type V = SettingsView;

    open spec fn view(&self) -> SettingsView {
        SettingsView {
            mode: self.mode,
            color_preset: self.color_preset,
            custom_color: self.custom_color,
            bars: self.bars as int,
            show_grid: self.show_grid,
            show_settings: self.show_settings,
            show_top_bar: self.show_top_bar,
            show_peaks: self.show_peaks,
            show_meter: self.show_meter,
            visualizer_only_widget: self.visualizer_only_widget,
            compact_controls: self.compact_controls,
            always_on_top: self.always_on_top,
            click_through: self.click_through,
            frameless: self.frameless,
            desktop_widget: self.desktop_widget,
            desktop_only: self.desktop_only,
            cover_art_source: self.cover_art_source@,
            desktop_x: self.desktop_x as int,
            desktop_y: self.desktop_y as int,
            desktop_width: self.desktop_width as int,
            desktop_height: self.desktop_height as int,
            taskbar_strip: self.taskbar_strip,
            taskbar_edge: self.taskbar_edge,
            target_fps: self.target_fps as int,
            visualizer_count: self.visualizer_count as int,
        }
    }
}

/// `v` limited to `lo..=hi`.
pub open spec fn clamp(v: int, lo: int, hi: int) -> int {
    if v < lo {
        lo
    } else if v > hi {
        hi
    } else {
        v
    }
}

impl SettingsView {
    /// The settings after normalization: every number brought into its range,
    /// a desktop widget made frameless and gridless (and, when it shows the
    /// visualizer only, without top bar or meter), a desktop-only window never
    /// on top, and the cover art source trimmed (and cleared while the cover
    /// art preset is chosen). The taskbar strip and click-through choices are
    /// kept as they are.
    pub open spec fn normalized(self) -> SettingsView {
        let widget = self.desktop_widget;
        let bare = widget && self.visualizer_only_widget;
        SettingsView {
            bars: clamp(self.bars, 16, 192),
            desktop_x: clamp(self.desktop_x, -20000, 20000),
            desktop_y: clamp(self.desktop_y, -20000, 20000),
            desktop_width: clamp(self.desktop_width, 240, 3840),
            desktop_height: clamp(self.desktop_height, 80, 2160),
            target_fps: clamp(self.target_fps, 30, 144),
            visualizer_count: clamp(self.visualizer_count, 1, 6),
            show_grid: self.show_grid && !widget,
            frameless: self.frameless || widget,
            show_top_bar: self.show_top_bar && !bare,
            show_meter: self.show_meter && !bare,
            always_on_top: self.always_on_top && !self.desktop_only,
            cover_art_source: if self.color_preset == ColorPreset::CoverArt {
                Seq::empty()
            } else {
                trim_seq(self.cover_art_source)
            },
            ..self
        }
    }

    /// The conditions that normalized settings meet.
    pub open spec fn is_normalized(self) -> bool {
        &&& 16 <= self.bars <= 192
        &&& -20000 <= self.desktop_x <= 20000
        &&& -20000 <= self.desktop_y <= 20000
        &&& 240 <= self.desktop_width <= 3840
        &&& 80 <= self.desktop_height <= 2160
        &&& 30 <= self.target_fps <= 144
        &&& 1 <= self.visualizer_count <= 6
        &&& self.desktop_widget ==> self.frameless && !self.show_grid
        &&& self.desktop_widget && self.visualizer_only_widget ==> {
            &&& !self.show_top_bar
            &&& !self.show_meter
        }
        &&& self.desktop_only ==> !self.always_on_top
        &&& trim_seq(self.cover_art_source) == self.cover_art_source
        &&& self.color_preset == ColorPreset::CoverArt ==> self.cover_art_source.len() == 0
    }
}

/// Normalized settings meet every condition of [`SettingsView::is_normalized`].
pub proof fn lemma_normalized_is_normalized(v: SettingsView)
    ensures
        v.normalized().is_normalized(),
{
    lemma_trim_idempotent(v.cover_art_source);
    assert(trim_seq(Seq::<char>::empty()) =~= Seq::<char>::empty());
}

/// Settings that meet those conditions are left as they are by normalization.
pub proof fn lemma_normalized_settings_unchanged(v: SettingsView)
    requires
        v.is_normalized(),
    ensures
        v.normalized() == v,
{
    if v.color_preset == ColorPreset::CoverArt {
        assert(v.cover_art_source =~= Seq::<char>::empty());
    }
}

/// Normalizing twice gives what normalizing once gives.
pub proof fn lemma_normalize_idempotent(v: SettingsView)
    ensures
        v.normalized().normalized() == v.normalized(),
{
    lemma_normalized_is_normalized(v);
    lemma_normalized_settings_unchanged(v.normalized());
}

fn clamp_usize(v: usize, lo: usize, hi: usize) -> (r: usize)
    requires
        lo <= hi,
    ensures
        r as int == clamp(v as int, lo as int, hi as int),
{
    if v < lo {
        lo
    } else if v > hi {
        hi
    } else {
        v
    }
}

fn clamp_i32(v: i32, lo: i32, hi: i32) -> (r: i32)
    requires
        lo <= hi,
    ensures
        r as int == clamp(v as int, lo as int, hi as int),
{
    if v < lo {
        lo
    } else if v > hi {
        hi
    } else {
        v
    }
}

fn clamp_u32(v: u32, lo: u32, hi: u32) -> (r: u32)
    requires
        lo <= hi,
    ensures
        r as int == clamp(v as int, lo as int, hi as int),
{
    if v < lo {
        lo
    } else if v > hi {
        hi
    } else {
        v
    }
}

/// The number of visualizers assumed where a stored settings file names none.
pub fn default_visualizer_count() -> (n: usize)
    ensures
        n == 1,
{
    1
}

impl Default for Settings {
    fn default() -> (s: Settings)
        ensures
            s.mode == VisualizerMode::Bars,
            s.color_preset == ColorPreset::Custom,
            s.custom_color@ == seq![194u8, 74u8, 190u8],
            s.bars == 72,
            s.show_grid,
            s.show_settings,
            s.show_top_bar,
            !s.show_peaks,
            s.show_meter,
            s.visualizer_only_widget,
            !s.compact_controls,
            !s.always_on_top,
            !s.click_through,
            !s.frameless,
            s.desktop_widget,
            s.desktop_only,
            s.cover_art_source@.len() == 0,
            s.desktop_x == 120,
            s.desktop_y == 120,
            s.desktop_width == 760,
            s.desktop_height == 260,
            !s.taskbar_strip,
            s.taskbar_edge == TaskbarEdge::Bottom,
            s.target_fps == 60,
            s.visualizer_count == 1,
    {
        let s = Settings {
            mode: VisualizerMode::Bars,
            color_preset: ColorPreset::Custom,
            custom_color: [194, 74, 190],
            bars: 72,
            show_grid: true,
            show_settings: true,
            show_top_bar: true,
            show_peaks: false,
            show_meter: true,
            visualizer_only_widget: true,
            compact_controls: false,
            always_on_top: false,
            click_through: false,
            frameless: false,
            desktop_widget: true,
            desktop_only: true,
            cover_art_source: String::new(),
            desktop_x: 120,
            desktop_y: 120,
            desktop_width: 760,
            desktop_height: 260,
            taskbar_strip: false,
            taskbar_edge: TaskbarEdge::Bottom,
            target_fps: 60,
            visualizer_count: default_visualizer_count(),
        };
        assert(s.custom_color@ =~= seq![194u8, 74u8, 190u8]);
        s
    }
}

impl Settings {
    /// Brings every choice into its allowed range and makes the choices agree
    /// with each other (see [`SettingsView::normalized`]).
    #[verifier::rlimit(40)]
    pub fn normalize(&mut self)
        ensures
            final(self)@ == old(self)@.normalized(),
    {
        self.bars = clamp_usize(self.bars, 16, 192);
        self.desktop_x = clamp_i32(self.desktop_x, -20000, 20000);
        self.desktop_y = clamp_i32(self.desktop_y, -20000, 20000);
        self.desktop_width = clamp_i32(self.desktop_width, 240, 3840);
        self.desktop_height = clamp_i32(self.desktop_height, 80, 2160);
        self.target_fps = clamp_u32(self.target_fps, 30, 144);
        self.visualizer_count = clamp_usize(self.visualizer_count, 1, 6);

        if self.desktop_widget {
            self.show_grid = false;
            self.frameless = true;
            if self.visualizer_only_widget {
                self.show_top_bar = false;
                self.show_meter = false;
            }
        }
        // A desktop-only widget stays pinned to the desktop and never floats
        // above other applications.

        if self.desktop_only {
            self.always_on_top = false;
        }

        self.cover_art_source = trim(self.cover_art_source.as_str());
        if self.color_preset == ColorPreset::CoverArt {
            self.cover_art_source = String::new();
        }
    }

    /// Is the visualizer a desktop widget that shows nothing but the visualizer?
    pub fn hides_overlays(&self) -> (b: bool)
        ensures
            b == (self.desktop_widget && self.visualizer_only_widget),
    {
        self.desktop_widget && self.visualizer_only_widget
    }

    /// Is the app's own top bar shown? Only where chosen, and never on a
    /// visualizer-only desktop widget.
    pub fn shows_top_bar(&self) -> (b: bool)
        ensures
            b == (self.show_top_bar && !(self.desktop_widget && self.visualizer_only_widget)),
    {
        self.show_top_bar && !self.hides_overlays()
    }

    /// Turns the window into a frameless, visualizer-only desktop widget
    /// without the top bar.
    pub fn enter_visualizer_only(&mut self)
        ensures
            final(self)@ == (SettingsView {
                show_top_bar: false,
                frameless: true,
                desktop_widget: true,
                visualizer_only_widget: true,
                ..old(self)@
            }),
    {
        self.show_top_bar = false;
        self.frameless = true;
        self.desktop_widget = true;
        self.visualizer_only_widget = true;
    }

    /// Switches desktop widget mode; switching it on also makes the widget
    /// visualizer-only.
    pub fn set_desktop_widget(&mut self, on: bool)
        ensures
            final(self)@ == (SettingsView {
                desktop_widget: on,
                visualizer_only_widget: on || old(self).visualizer_only_widget,
                ..old(self)@
            }),
    {
        self.desktop_widget = on;
        if on {
            self.visualizer_only_widget = true;
        }
    }

    /// Switches desktop-only mode; switching it on also takes the window off
    /// the top of the stacking order.
    pub fn set_desktop_only(&mut self, on: bool)
        ensures
            final(self)@ == (SettingsView {
                desktop_only: on,
                always_on_top: !on && old(self).always_on_top,
                ..old(self)@
            }),
    {
        self.desktop_only = on;
        if on {
            self.always_on_top = false;
        }
    }

    /// The primary and secondary colors of the chosen preset.
    pub fn accent_colors(&self) -> (c: (Rgb, Rgb))
        ensures
            c == self.color_preset.spec_colors(self.custom_color),
    {
        self.color_preset.colors(self.custom_color)
    }
}

} // verus!
