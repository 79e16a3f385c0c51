//! Where and how the visualizer window is placed on screen.
use vstd::prelude::*;

use crate::settings::{Settings, SettingsView, TaskbarEdge};

verus! {

/// A rectangle of the screen: its top-left corner and its size.
#[derive(Clone, Copy, Debug, PartialEq, Eq, Structural)]
pub struct DisplayArea {
    pub x: i32,
    pub y: i32,
    pub width: i32,
    pub height: i32,
}

pub open spec fn fits_i32(v: int) -> bool {
    i32::MIN <= v <= i32::MAX
}

/// The area of a rectangle given by its edges.
pub fn display_area_from_rect(left: i32, top: i32, right: i32, bottom: i32) -> (area: DisplayArea)
    requires
        fits_i32(right - left),
        fits_i32(bottom - top),
    ensures
        area.x == left,
        area.y == top,
        area.width == right - left,
        area.height == bottom - top,
{
    DisplayArea { x: left, y: top, width: right - left, height: bottom - top }
}

/// The screen area used for placement presets: the work area of the window's
/// monitor, else the window's own inner rectangle, else the monitor size at
/// the origin, else a 1920x1080 screen.
pub fn choose_display_area(
    work_area: Option<DisplayArea>,
    inner_rect: Option<DisplayArea>,
    monitor_size: Option<(i32, i32)>,
) -> (area: DisplayArea)
    ensures
        area == (match work_area {
            Some(a) => a,
            None => match inner_rect {
                Some(r) => r,
                None => match monitor_size {
                    Some((w, h)) => DisplayArea { x: 0, y: 0, width: w, height: h },
                    None => DisplayArea { x: 0, y: 0, width: 1920, height: 1080 },
                },
            },
        }),
{
    match work_area {
        Some(a) => a,
        None => match inner_rect {
            Some(r) => r,
            None => match monitor_size {
                Some((w, h)) => DisplayArea { x: 0, y: 0, width: w, height: h },
                None => DisplayArea { x: 0, y: 0, width: 1920, height: 1080 },
            },
        },
    }
}

/// A note shown under the placement settings on systems where native
/// placement is not available.
pub fn platform_note(on_windows: bool) -> (note: Option<&'static str>)
    ensures
        on_windows ==> note is None,
        !on_windows ==> (note matches Some(n) && n@
            == "Native desktop widget and taskbar strip placement are implemented for Windows."@),
{
    if on_windows {
        None
    } else {
        Some("Native desktop widget and taskbar strip placement are implemented for Windows.")
    }
}

/// What the portable window layer is told: stacking level, decorations, and
/// the widget rectangle where the window is a desktop widget.
#[derive(Clone, Copy, Debug, PartialEq, Eq, Structural)]
pub struct ViewportPlan {
    pub always_on_top: bool,
    pub decorations: bool,
    pub placement: Option<DisplayArea>,
}

/// The widget rectangle that the settings choose.
pub open spec fn widget_area(s: SettingsView) -> DisplayArea {
    DisplayArea {
        x: s.desktop_x as i32,
        y: s.desktop_y as i32,
        width: s.desktop_width as i32,
        height: s.desktop_height as i32,
    }
}

pub open spec fn spec_viewport_plan(s: SettingsView) -> ViewportPlan {
    ViewportPlan {
        always_on_top: s.always_on_top && !s.desktop_only,
        decorations: !s.frameless,
        placement: if s.desktop_widget {
            Some(widget_area(s))
        } else {
            None
        },
    }
}

/// The portable window commands for `settings`: on top only where chosen and
/// not desktop-only, decorated unless frameless, and placed at the widget
/// rectangle in desktop widget mode.
pub fn viewport_plan(settings: &Settings) -> (plan: ViewportPlan)
    ensures
        plan == spec_viewport_plan(settings@),
{
    ViewportPlan {
        always_on_top: settings.always_on_top && !settings.desktop_only,
        decorations: !settings.frameless,
        placement: if settings.desktop_widget {
            Some(
                DisplayArea {
                    x: settings.desktop_x,
                    y: settings.desktop_y,
                    width: settings.desktop_width,
                    height: settings.desktop_height,
                },
            )
        } else {
            None
        },
    }
}

/// Where a native window goes in the stacking order.
#[derive(Clone, Copy, Debug, PartialEq, Eq, Structural)]
pub enum ZOrder {
    /// Below every other window, on the desktop.
    Bottom,
    /// Above every window that is not topmost itself.
    TopMost,
    /// Among ordinary windows.
    NoTopMost,
}

/// How the native window is positioned.
#[derive(Clone, Copy, Debug, PartialEq, Eq, Structural)]
pub enum NativePlacement {
    /// A desktop window: stacked at `z`, and moved to `area` where given
    /// (where not, only its stacking changes).
    Widget { z: ZOrder, area: Option<DisplayArea> },
    /// A strip along `edge` of the monitor's work area.
    Strip { z: ZOrder, edge: TaskbarEdge },
    /// An ordinary window whose stacking alone changes.
    Stacking { z: ZOrder },
}

/// What the native window layer is told.
#[derive(Clone, Copy, Debug, PartialEq, Eq, Structural)]
pub struct NativePlan {
    pub click_through: bool,
    pub placement: NativePlacement,
}

pub open spec fn on_top_order(on_top: bool) -> ZOrder {
    if on_top {
        ZOrder::TopMost
    } else {
        ZOrder::NoTopMost
    }
}

pub open spec fn spec_native_plan(s: SettingsView) -> NativePlan {
    NativePlan {
        click_through: s.click_through,
        placement: if s.desktop_widget || s.desktop_only {
            NativePlacement::Widget {
                z: if s.desktop_only || !s.always_on_top {
                    ZOrder::Bottom
                } else {
                    ZOrder::TopMost
                },
                area: if s.desktop_widget {
                    Some(widget_area(s))
                } else {
                    None
                },
            }
        } else if s.taskbar_strip {
            NativePlacement::Strip { z: on_top_order(s.always_on_top), edge: s.taskbar_edge }
        } else {
            NativePlacement::Stacking { z: on_top_order(s.always_on_top) }
        },
    }
}

fn on_top(always_on_top: bool) -> (z: ZOrder)
    ensures
        z == on_top_order(always_on_top),
{
    if always_on_top {
        ZOrder::TopMost
    } else {
        ZOrder::NoTopMost
    }
}

/// The native window commands for `settings`: a desktop widget or
/// desktop-only window is pinned to the bottom of the stacking order unless
/// it is a widget that is to stay on top and not desktop-only; a taskbar
/// strip runs along its edge; any other window is only restacked.
pub fn native_plan(settings: &Settings) -> (plan: NativePlan)
    ensures
        plan == spec_native_plan(settings@),
{
    let placement = if settings.desktop_widget || settings.desktop_only {
        let pin_to_desktop = settings.desktop_only || !settings.always_on_top;
        let z = if pin_to_desktop {
            ZOrder::Bottom
        } else {
            ZOrder::TopMost
        };
        let area = if settings.desktop_widget {
            Some(
                DisplayArea {
                    x: settings.desktop_x,
                    y: settings.desktop_y,
                    width: settings.desktop_width,
                    height: settings.desktop_height,
                },
            )
        } else {
            None
        };
        NativePlacement::Widget { z, area }
    } else if settings.taskbar_strip {
        NativePlacement::Strip { z: on_top(settings.always_on_top), edge: settings.taskbar_edge }
    } else {
        NativePlacement::Stacking { z: on_top(settings.always_on_top) }
    };
    NativePlan { click_through: settings.click_through, placement }
}

/// A desktop-only window is never placed above other applications: neither
/// the portable nor the native layer puts it on top, and natively it sits at
/// the bottom of the stacking order.
pub proof fn lemma_desktop_only_never_on_top(s: SettingsView)
    requires
        s.desktop_only,
    ensures
        !spec_viewport_plan(s).always_on_top,
        spec_native_plan(s).placement matches NativePlacement::Widget { z, .. } && z
            == ZOrder::Bottom,
{
}

/// The stacking order that a native placement asks for.
pub open spec fn placement_z(p: NativePlacement) -> ZOrder {
    match p {
        NativePlacement::Widget { z, .. } => z,
        NativePlacement::Strip { z, .. } => z,
        NativePlacement::Stacking { z } => z,
    }
}

/// How the native layer places and stacks the window, whatever the
/// settings: the window is kept above all others exactly when "always on top"
/// is chosen and it is not desktop-only; otherwise a desktop widget or
/// desktop-only window goes to the bottom and any other window among the
/// ordinary ones. A desktop widget is moved to its chosen rectangle, a window
/// that is neither a widget nor desktop-only runs as a strip along the chosen
/// edge exactly when strip mode is chosen, and clicks pass through exactly
/// when click-through is chosen.
pub proof fn lemma_native_plan_follows_settings(settings: Settings)
    ensures
        ({
            let s = settings@;
            let plan = spec_native_plan(s);
            let z = placement_z(plan.placement);
            &&& plan.click_through == s.click_through
            &&& (z == ZOrder::TopMost) == (s.always_on_top && !s.desktop_only)
            &&& (z == ZOrder::Bottom) == ((s.desktop_widget || s.desktop_only) && !(
            s.always_on_top && !s.desktop_only))
            &&& (z == ZOrder::NoTopMost) == (!s.desktop_widget && !s.desktop_only
                && !s.always_on_top)
            &&& (plan.placement is Widget) == (s.desktop_widget || s.desktop_only)
            &&& s.desktop_widget ==> (plan.placement matches NativePlacement::Widget {
                area: Some(a),
                ..
            } && a.x == settings.desktop_x && a.y == settings.desktop_y && a.width
                == settings.desktop_width && a.height == settings.desktop_height)
            &&& !s.desktop_widget && s.desktop_only ==> (plan.placement matches NativePlacement::Widget {
                area: None,
                ..
            })
            &&& (plan.placement is Strip) == (!s.desktop_widget && !s.desktop_only
                && s.taskbar_strip)
            &&& (plan.placement matches NativePlacement::Strip { edge, .. } ==> edge
                == s.taskbar_edge)
        }),
{
}

/// The extended window style bit that lets a window be layered.
pub const WS_EX_LAYERED: u32 = 0x0008_0000;

/// The extended window style bit that passes mouse input through a window.
pub const WS_EX_TRANSPARENT: u32 = 0x0000_0020;

/// The extended style of a window after choosing whether clicks pass
/// through it: both bits set for click-through, else the pass-through bit
/// cleared, every other bit kept.
pub fn extended_style(current: u32, click_through: bool) -> (style: u32)
    ensures
        click_through ==> style == current | (WS_EX_LAYERED | WS_EX_TRANSPARENT),
        !click_through ==> style == current & !WS_EX_TRANSPARENT,
{
    if click_through {
        current | (WS_EX_LAYERED | WS_EX_TRANSPARENT)
    } else {
        current & !WS_EX_TRANSPARENT
    }
}

/// The rectangle of a strip `thickness` wide along `edge` of the work area
/// with the given edges.
pub open spec fn spec_strip_area(
    left: int,
    top: int,
    right: int,
    bottom: int,
    edge: TaskbarEdge,
    thickness: int,
) -> (int, int, int, int) {
    let width = right - left;
    let height = bottom - top;
    match edge {
        TaskbarEdge::Bottom => (left, bottom - thickness, width, thickness),
        TaskbarEdge::Top => (left, top, width, thickness),
        TaskbarEdge::Left => (left, top, thickness, height),
        TaskbarEdge::Right => (right - thickness, top, thickness, height),
    }
}

/// The strip rectangle along `edge` of the work area.
pub fn strip_area(
    left: i32,
    top: i32,
    right: i32,
    bottom: i32,
    edge: TaskbarEdge,
    thickness: i32,
) -> (area: DisplayArea)
    requires
        fits_i32(right - left),
        fits_i32(bottom - top),
        fits_i32(bottom - thickness),
        fits_i32(right - thickness),
    ensures
        (area.x as int, area.y as int, area.width as int, area.height as int) == spec_strip_area(
            left as int,
            top as int,
            right as int,
            bottom as int,
            edge,
            thickness as int,
        ),
{
    let width = right - left;
    let height = bottom - top;
    match edge {
        TaskbarEdge::Bottom => DisplayArea { x: left, y: bottom - thickness, width, height: thickness },
        TaskbarEdge::Top => DisplayArea { x: left, y: top, width, height: thickness },
        TaskbarEdge::Left => DisplayArea { x: left, y: top, width: thickness, height },
        TaskbarEdge::Right => DisplayArea { x: right - thickness, y: top, width: thickness, height },
    }
}

} // verus!
