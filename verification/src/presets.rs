//! One-click looks and screen placements for the visualizer.
use vstd::prelude::*;

use crate::settings::{ColorPreset, Settings, SettingsView, VisualizerMode};
use crate::window::{fits_i32, DisplayArea};

verus! {

/// A ready-made look of the visualizer.
#[derive(Clone, Copy, Debug, PartialEq, Eq, Structural)]
pub enum VisualizerPreset {
    CleanBars,
    MirrorGlow,
    WaveRibbon,
    RadialPulse,
    ParticleField,
}

impl VisualizerPreset {
    pub const ALL: [VisualizerPreset; 5] = [
        VisualizerPreset::CleanBars,
        VisualizerPreset::MirrorGlow,
        VisualizerPreset::WaveRibbon,
        VisualizerPreset::RadialPulse,
        VisualizerPreset::ParticleField,
    ];

    pub open spec fn spec_label(self) -> Seq<char> {
        match self {
            VisualizerPreset::CleanBars => "Clean bars"@,
            VisualizerPreset::MirrorGlow => "Mirror glow"@,
            VisualizerPreset::WaveRibbon => "Wave ribbon"@,
            VisualizerPreset::RadialPulse => "Radial pulse"@,
            VisualizerPreset::ParticleField => "Particle field"@,
        }
    }

    /// The name on the preset's button.
    pub fn label(self) -> (label: &'static str)
        ensures
            label@ == self.spec_label(),
    {
        match self {
            VisualizerPreset::CleanBars => "Clean bars",
            VisualizerPreset::MirrorGlow => "Mirror glow",
            VisualizerPreset::WaveRibbon => "Wave ribbon",
            VisualizerPreset::RadialPulse => "Radial pulse",
            VisualizerPreset::ParticleField => "Particle field",
        }
    }

    /// The mode, color preset, band count and peak markers of the look.
    pub open spec fn spec_choices(self) -> (VisualizerMode, ColorPreset, int, bool) {
        match self {
            VisualizerPreset::CleanBars => (VisualizerMode::Bars, ColorPreset::Steel, 96, false),
            VisualizerPreset::MirrorGlow => (
                VisualizerMode::MirrorBars,
                ColorPreset::Ember,
                72,
                true,
            ),
            VisualizerPreset::WaveRibbon => (
                VisualizerMode::Waveform,
                ColorPreset::Forest,
                128,
                false,
            ),
            VisualizerPreset::RadialPulse => (
                VisualizerMode::Radial,
                ColorPreset::Slate,
                88,
                false,
            ),
            VisualizerPreset::ParticleField => (
                VisualizerMode::Particles,
                ColorPreset::Graphite,
                64,
                false,
            ),
        }
    }
}

impl Settings {
    /// Takes over the mode, color preset, band count and peak markers of a
    /// look; every other choice stays.
    pub fn apply_visualizer_preset(&mut self, preset: VisualizerPreset)
        ensures
            ({
                let (mode, color, bars, peaks) = preset.spec_choices();
                final(self)@ == SettingsView {
                    mode,
                    color_preset: color,
                    bars,
                    show_peaks: peaks,
                    ..old(self)@
                }
            }),
    {
        let (mode, color, bars, peaks): (VisualizerMode, ColorPreset, usize, bool) = match preset {
            VisualizerPreset::CleanBars => (VisualizerMode::Bars, ColorPreset::Steel, 96, false),
            VisualizerPreset::MirrorGlow => (VisualizerMode::MirrorBars, ColorPreset::Ember, 72, true),
            VisualizerPreset::WaveRibbon => (VisualizerMode::Waveform, ColorPreset::Forest, 128, false),
            VisualizerPreset::RadialPulse => (VisualizerMode::Radial, ColorPreset::Slate, 88, false),
            VisualizerPreset::ParticleField => (
                VisualizerMode::Particles,
                ColorPreset::Graphite,
                64,
                false,
            ),
        };
        self.mode = mode;
        self.color_preset = color;
        self.bars = bars;
        self.show_peaks = peaks;
    }
}

/// Where on the screen a placement puts the widget.
#[derive(Clone, Copy, Debug, PartialEq, Eq, Structural)]
pub enum PlacementAnchor {
    TopLeft,
    Top,
    TopRight,
    Left,
    Center,
    Right,
    BottomLeft,
    Bottom,
    BottomRight,
    LowerThird,
    TopBand,
    BottomBand,
}

/// How large a placement makes the widget.
#[derive(Clone, Copy, Debug, PartialEq, Eq, Structural)]
pub enum PlacementSize {
    Compact,
    Wide,
    Band,
}

impl PlacementSize {
    pub open spec fn spec_ratios_permille(self) -> (int, int) {
        match self {
            PlacementSize::Compact => (300, 160),
            PlacementSize::Wide => (460, 180),
            PlacementSize::Band => (720, 140),
        }
    }

    /// The widget's share of the screen's width and height, in thousandths.
    pub fn ratios_permille(self) -> (r: (u32, u32))
        ensures
            (r.0 as int, r.1 as int) == self.spec_ratios_permille(),
    {
        match self {
            PlacementSize::Compact => (300, 160),
            PlacementSize::Wide => (460, 180),
            PlacementSize::Band => (720, 140),
        }
    }
}

/// A named screen placement for the desktop widget.
#[derive(Clone, Copy, Debug)]
pub struct PlacementPreset {
    pub label: &'static str,
    pub anchor: PlacementAnchor,
    pub size: PlacementSize,
}

impl PlacementPreset {
    pub fn new(label: &'static str, anchor: PlacementAnchor, size: PlacementSize) -> (p: Self)
        ensures
            p.label == label,
            p.anchor == anchor,
            p.size == size,
    {
        PlacementPreset { label, anchor, size }
    }

    /// The name on the placement's button.
    pub fn label(self) -> (label: &'static str)
        ensures
            label == self.label,
    {
        self.label
    }

    /// Every placement, in the order the buttons show them.
    pub fn all() -> (presets: Vec<PlacementPreset>)
        ensures
            presets@.len() == 12,
            presets@[0].anchor == PlacementAnchor::TopLeft && presets@[0].size == PlacementSize::Compact && presets@[0].label@ == "Top left"@,
            presets@[1].anchor == PlacementAnchor::Top && presets@[1].size == PlacementSize::Wide && presets@[1].label@ == "Top"@,
            presets@[2].anchor == PlacementAnchor::TopRight && presets@[2].size == PlacementSize::Compact && presets@[2].label@ == "Top right"@,
            presets@[3].anchor == PlacementAnchor::Left && presets@[3].size == PlacementSize::Compact && presets@[3].label@ == "Left"@,
            presets@[4].anchor == PlacementAnchor::Center && presets@[4].size == PlacementSize::Wide && presets@[4].label@ == "Center"@,
            presets@[5].anchor == PlacementAnchor::Right && presets@[5].size == PlacementSize::Compact && presets@[5].label@ == "Right"@,
            presets@[6].anchor == PlacementAnchor::LowerThird && presets@[6].size == PlacementSize::Wide && presets@[6].label@ == "Lower third"@,
            presets@[7].anchor == PlacementAnchor::BottomLeft && presets@[7].size == PlacementSize::Compact && presets@[7].label@ == "Bottom left"@,
            presets@[8].anchor == PlacementAnchor::Bottom && presets@[8].size == PlacementSize::Wide && presets@[8].label@ == "Bottom"@,
            presets@[9].anchor == PlacementAnchor::BottomRight && presets@[9].size == PlacementSize::Compact && presets@[9].label@ == "Bottom right"@,
            presets@[10].anchor == PlacementAnchor::TopBand && presets@[10].size == PlacementSize::Band && presets@[10].label@ == "Top band"@,
            presets@[11].anchor == PlacementAnchor::BottomBand && presets@[11].size == PlacementSize::Band && presets@[11].label@ == "Bottom band"@,
    {
        let mut v: Vec<PlacementPreset> = Vec::new();
        v.push(PlacementPreset::new("Top left", PlacementAnchor::TopLeft, PlacementSize::Compact));
        v.push(PlacementPreset::new("Top", PlacementAnchor::Top, PlacementSize::Wide));
        v.push(PlacementPreset::new("Top right", PlacementAnchor::TopRight, PlacementSize::Compact));
        v.push(PlacementPreset::new("Left", PlacementAnchor::Left, PlacementSize::Compact));
        v.push(PlacementPreset::new("Center", PlacementAnchor::Center, PlacementSize::Wide));
        v.push(PlacementPreset::new("Right", PlacementAnchor::Right, PlacementSize::Compact));
        v.push(PlacementPreset::new("Lower third", PlacementAnchor::LowerThird, PlacementSize::Wide));
        v.push(PlacementPreset::new("Bottom left", PlacementAnchor::BottomLeft, PlacementSize::Compact));
        v.push(PlacementPreset::new("Bottom", PlacementAnchor::Bottom, PlacementSize::Wide));
        v.push(PlacementPreset::new("Bottom right", PlacementAnchor::BottomRight, PlacementSize::Compact));
        v.push(PlacementPreset::new("Top band", PlacementAnchor::TopBand, PlacementSize::Band));
        v.push(PlacementPreset::new("Bottom band", PlacementAnchor::BottomBand, PlacementSize::Band));
        v
    }
}

/// Sizes scaled from the screen area before they are limited: the widget's
/// width and height by the placement's ratios, the margin as 3.5% of the
/// shorter screen side, and 66% of the screen height (all rounded).
#[derive(Clone, Copy, Debug, PartialEq, Eq, Structural)]
pub struct ScaledSizes {
    pub width: i32,
    pub height: i32,
    pub margin: i32,
    pub two_thirds_down: i32,
}

/// Division rounding toward zero, as integer division does.
pub open spec fn div_toward_zero(a: int, b: int) -> int {
    if a >= 0 {
        a / b
    } else {
        -((-a) / b)
    }
}

pub open spec fn clamp_int(v: int, lo: int, hi: int) -> int {
    if v < lo {
        lo
    } else if v > hi {
        hi
    } else {
        v
    }
}

/// The widget rectangle that a placement gives in `area`.
pub open spec fn placement_rect(anchor: PlacementAnchor, area: DisplayArea, scaled: ScaledSizes) -> (
    int,
    int,
    int,
    int,
) {
    let width = clamp_int(scaled.width as int, 280, 1600);
    let height = clamp_int(scaled.height as int, 96, 420);
    let margin = clamp_int(scaled.margin as int, 18, 72);
    let ax = area.x as int;
    let ay = area.y as int;
    let center_x = ax + div_toward_zero(area.width - width, 2);
    let center_y = ay + div_toward_zero(area.height - height, 2);
    let right = ax + area.width - width - margin;
    let bottom = ay + area.height - height - margin;
    let (x, y) = match anchor {
        PlacementAnchor::TopLeft => (ax + margin, ay + margin),
        PlacementAnchor::Top => (center_x, ay + margin),
        PlacementAnchor::TopRight => (right, ay + margin),
        PlacementAnchor::Left => (ax + margin, center_y),
        PlacementAnchor::Center => (center_x, center_y),
        PlacementAnchor::Right => (right, center_y),
        PlacementAnchor::BottomLeft => (ax + margin, bottom),
        PlacementAnchor::Bottom => (center_x, bottom),
        PlacementAnchor::BottomRight => (right, bottom),
        PlacementAnchor::LowerThird => (
            center_x,
            ay + scaled.two_thirds_down - div_toward_zero(height, 2),
        ),
        PlacementAnchor::TopBand => (ax + margin, ay + margin),
        PlacementAnchor::BottomBand => (ax + margin, bottom),
    };
    (x, y, width, height)
}

/// Every step of the placement arithmetic stays within `i32`.
pub open spec fn placement_fits(area: DisplayArea, scaled: ScaledSizes) -> bool {
    let width = clamp_int(scaled.width as int, 280, 1600);
    let height = clamp_int(scaled.height as int, 96, 420);
    let margin = clamp_int(scaled.margin as int, 18, 72);
    &&& fits_i32(area.width - width)
    &&& fits_i32(area.height - height)
    &&& fits_i32(area.x + div_toward_zero(area.width - width, 2))
    &&& fits_i32(area.y + div_toward_zero(area.height - height, 2))
    &&& fits_i32(area.x + area.width)
    &&& fits_i32(area.x + area.width - width)
    &&& fits_i32(area.x + area.width - width - margin)
    &&& fits_i32(area.y + area.height)
    &&& fits_i32(area.y + area.height - height)
    &&& fits_i32(area.y + area.height - height - margin)
    &&& fits_i32(area.x + margin)
    &&& fits_i32(area.y + margin)
    &&& fits_i32(area.y + scaled.two_thirds_down)
    &&& fits_i32(area.y + scaled.two_thirds_down - div_toward_zero(height, 2))
}

fn clamp_i64(v: i64, lo: i64, hi: i64) -> (r: i64)
    requires
        lo <= hi,
    ensures
        r as int == clamp_int(v as int, lo as int, hi as int),
{
    if v < lo {
        lo
    } else if v > hi {
        hi
    } else {
        v
    }
}

fn half_toward_zero_wide(a: i64) -> (h: i64)
    requires
        a > i64::MIN,
    ensures
        h as int == div_toward_zero(a as int, 2),
{
    if a >= 0 {
        a / 2
    } else {
        -((-a) / 2)
    }
}

fn fits(v: i64) -> (b: bool)
    ensures
        b == fits_i32(v as int),
{
    -0x8000_0000 <= v && v <= 0x7FFF_FFFF
}

/// Does every step of the placement arithmetic stay within `i32` for this
/// area and these sizes?
pub fn placement_arithmetic_fits(area: DisplayArea, scaled: ScaledSizes) -> (b: bool)
    ensures
        b == placement_fits(area, scaled),
{
    let width = clamp_i64(scaled.width as i64, 280, 1600);
    let height = clamp_i64(scaled.height as i64, 96, 420);
    let margin = clamp_i64(scaled.margin as i64, 18, 72);
    let x = area.x as i64;
    let y = area.y as i64;
    let w = area.width as i64;
    let h = area.height as i64;
    let t = scaled.two_thirds_down as i64;
    fits(w - width) && fits(h - height) && fits(x + half_toward_zero_wide(w - width)) && fits(
        y + half_toward_zero_wide(h - height),
    ) && fits(x + w) && fits(x + w - width) && fits(x + w - width - margin) && fits(y + h)
        && fits(y + h - height) && fits(y + h - height - margin) && fits(x + margin) && fits(
        y + margin,
    ) && fits(y + t) && fits(y + t - half_toward_zero_wide(height))
}

fn clamp_i32(v: i32, lo: i32, hi: i32) -> (r: i32)
    requires
        lo <= hi,
    ensures
        r as int == clamp_int(v as int, lo as int, hi as int),
{
    if v < lo {
        lo
    } else if v > hi {
        hi
    } else {
        v
    }
}

fn half_toward_zero(a: i32) -> (h: i32)
    ensures
        h as int == div_toward_zero(a as int, 2),
{
    if a >= 0 {
        a / 2
    } else if a == i32::MIN {
        -0x4000_0000
    } else {
        -((-a) / 2)
    }
}

/// The widget rectangle (x, y, width, height) that `anchor` gives in `area`.
pub fn placement_geometry(anchor: PlacementAnchor, area: DisplayArea, scaled: ScaledSizes) -> (r: (
    i32,
    i32,
    i32,
    i32,
))
    requires
        placement_fits(area, scaled),
    ensures
        (r.0 as int, r.1 as int, r.2 as int, r.3 as int) == placement_rect(anchor, area, scaled),
{
    let width = clamp_i32(scaled.width, 280, 1600);
    let height = clamp_i32(scaled.height, 96, 420);
    let margin = clamp_i32(scaled.margin, 18, 72);
    let center_x = area.x + half_toward_zero(area.width - width);
    let center_y = area.y + half_toward_zero(area.height - height);
    let right = area.x + area.width - width - margin;
    let bottom = area.y + area.height - height - margin;
    let (x, y) = match anchor {
        PlacementAnchor::TopLeft => (area.x + margin, area.y + margin),
        PlacementAnchor::Top => (center_x, area.y + margin),
        PlacementAnchor::TopRight => (right, area.y + margin),
        PlacementAnchor::Left => (area.x + margin, center_y),
        PlacementAnchor::Center => (center_x, center_y),
        PlacementAnchor::Right => (right, center_y),
        PlacementAnchor::BottomLeft => (area.x + margin, bottom),
        PlacementAnchor::Bottom => (center_x, bottom),
        PlacementAnchor::BottomRight => (right, bottom),
        PlacementAnchor::LowerThird => (
            center_x,
            area.y + scaled.two_thirds_down - half_toward_zero(height),
        ),
        PlacementAnchor::TopBand => (area.x + margin, area.y + margin),
        PlacementAnchor::BottomBand => (area.x + margin, bottom),
    };
    (x, y, width, height)
}

impl Settings {
    /// Makes the window a visualizer-only, frameless, gridless desktop widget at the rectangle that `preset` gives in `area`.
    pub fn apply_placement_preset(
        &mut self,
        preset: PlacementPreset,
        area: DisplayArea,
        scaled: ScaledSizes,
    )
        requires
            placement_fits(area, scaled),
        ensures
            ({
                let (x, y, w, h) = placement_rect(preset.anchor, area, scaled);
                final(self)@ == SettingsView {
                    desktop_widget: true,
                    visualizer_only_widget: true,
                    frameless: true,
                    show_grid: false,
                    desktop_x: x,
                    desktop_y: y,
                    desktop_width: w,
                    desktop_height: h,
                    ..old(self)@
                }
            }),
    {
        let (x, y, w, h) = placement_geometry(preset.anchor, area, scaled);
        self.desktop_widget = true;
        self.visualizer_only_widget = true;
        self.frameless = true;
        self.show_grid = false;
        self.desktop_width = w;
        self.desktop_height = h;
        self.desktop_x = x;
        self.desktop_y = y;
    }
}

/// A span of length `size` starting at `start` sits in the middle of the span
/// of length `whole` starting at `from`: the room left after it is the room
/// left before it or one more, and where it overhangs, the overhang after it
/// is the overhang before it or one more (the odd unit goes to the far side).
pub open spec fn centered_in(start: int, size: int, from: int, whole: int) -> bool {
    let before = start - from;
    let after = (from + whole) - (start + size);
    if whole >= size {
        0 <= after - before <= 1
    } else {
        0 <= before - after <= 1
    }
}

/// Where a placement puts the widget: its size is the scaled size limited to
/// 280..=1600 by 96..=420; it keeps the margin (the scaled margin limited to
/// 18..=72) from the left edge for the left anchors and both bands, from the
/// right edge for the right anchors, and is centred across the area for the
/// top, center, bottom and lower-third anchors; it keeps the margin from the
/// top edge for the top anchors and the top band, from the bottom edge for
/// the bottom anchors and the bottom band, is centred down the area for the
/// left, center and right anchors, and is centred on the line two thirds
/// down for the lower third.
pub proof fn lemma_placement_positions(anchor: PlacementAnchor, area: DisplayArea, scaled: ScaledSizes)
    ensures
        ({
            let (x, y, w, h) = placement_rect(anchor, area, scaled);
            let m = clamp_int(scaled.margin as int, 18, 72);
            let left = area.x as int;
            let top = area.y as int;
            let right = area.x + area.width;
            let bottom = area.y + area.height;
            &&& w == clamp_int(scaled.width as int, 280, 1600)
            &&& h == clamp_int(scaled.height as int, 96, 420)
            &&& (anchor is TopLeft || anchor is Left || anchor is BottomLeft || anchor is TopBand
                || anchor is BottomBand) ==> x == left + m
            &&& (anchor is TopRight || anchor is Right || anchor is BottomRight) ==> x + w == right
                - m
            &&& (anchor is Top || anchor is Center || anchor is Bottom || anchor is LowerThird)
                ==> centered_in(x, w, left, area.width as int)
            &&& (anchor is TopLeft || anchor is Top || anchor is TopRight || anchor is TopBand)
                ==> y == top + m
            &&& (anchor is BottomLeft || anchor is Bottom || anchor is BottomRight
                || anchor is BottomBand) ==> y + h == bottom - m
            &&& (anchor is Left || anchor is Center || anchor is Right) ==> centered_in(
                y,
                h,
                top,
                area.height as int,
            )
            &&& anchor is LowerThird ==> ({
                let line = top + scaled.two_thirds_down;
                0 <= (y + h - line) - (line - y) <= 1
            })
        }),
{
}

} // verus!
