//! From a panel of the user interface to framebuffer pixels.
//!
//! The user interface measures in logical units from the top left corner; the
//! renderer measures in whole pixels from the bottom left corner. Each edge of a
//! rectangle is scaled by the device pixel ratio and rounded on its own, so two
//! panels that share an edge share the pixel boundary too.

use vstd::prelude::*;
use crate::units::lemma_pixel_edge_at_unit_ratio;
use crate::units::lemma_pixel_edge_bound;
use crate::units::lemma_pixel_edge_monotone;
use crate::units::pixel_edge;
use crate::units::scale_to_pixel;
use crate::units::STEPS_PER_UNIT;

verus! {

/// `v`, moved as little as possible to lie in `lo ..= hi`.
pub open spec fn clamp(v: int, lo: int, hi: int) -> int {
    if v < lo {
        lo
    } else if v > hi {
        hi
    } else {
        v
    }
}

/// A rectangle over the mathematical integers: the points `(px, py)` with
/// `x <= px < x + width` and `y <= py < y + height`.
pub struct Rect {
    pub x: int,
    pub y: int,
    pub width: int,
    pub height: int,
}

impl Rect {
    /// Neither extent is negative.
    pub open spec fn wf(self) -> bool {
        self.width >= 0 && self.height >= 0
    }

    /// The first coordinate past the rectangle along x.
    pub open spec fn x_end(self) -> int {
        self.x + self.width
    }

    /// The first coordinate past the rectangle along y.
    pub open spec fn y_end(self) -> int {
        self.y + self.height
    }

    /// The rectangle covers no area.
    pub open spec fn is_empty(self) -> bool {
        self.width <= 0 || self.height <= 0
    }

    /// The point `(px, py)` lies in the rectangle.
    pub open spec fn contains(self, px: int, py: int) -> bool {
        self.x <= px < self.x_end() && self.y <= py < self.y_end()
    }

    /// No edge of `inner` lies outside `self`.
    pub open spec fn encloses(self, inner: Rect) -> bool {
        &&& self.x <= inner.x
        &&& inner.x_end() <= self.x_end()
        &&& self.y <= inner.y
        &&& inner.y_end() <= self.y_end()
    }

    /// The part of `self` that `clip` leaves visible: each edge of `clip`, moved
    /// onto `self` where it lies outside.
    pub open spec fn clipped_to(self, clip: Rect) -> Rect {
        let left = clamp(clip.x, self.x, self.x_end());
        let right = clamp(clip.x_end(), left, self.x_end());
        let top = clamp(clip.y, self.y, self.y_end());
        let bottom = clamp(clip.y_end(), top, self.y_end());
        Rect { x: left, y: top, width: right - left, height: bottom - top }
    }
}

/// The pixels that a logical rectangle covers. `r` is in thousandths of a logical
/// unit with y growing downwards, `ratio` in thousandths; the result is in pixels
/// with y growing upwards from the bottom of a framebuffer `screen_height` high.
pub open spec fn to_pixels(r: Rect, ratio: int, screen_height: int) -> Rect {
    let left = pixel_edge(r.x, ratio);
    let right = pixel_edge(r.x_end(), ratio);
    let top = pixel_edge(r.y, ratio);
    let bottom = pixel_edge(r.y_end(), ratio);
    Rect { x: left, y: screen_height - bottom, width: right - left, height: bottom - top }
}

/// A rectangle of the user interface, in thousandths of a logical unit, measured
/// from the top left corner.
#[derive(Clone, Copy, Debug, PartialEq, Eq, Structural)]
pub struct LogicalRect {
    pub x: i32,
    pub y: i32,
    pub width: u32,
    pub height: u32,
}

impl View for LogicalRect {
    type V = Rect;

    open spec fn view(&self) -> Rect {
        Rect {
            x: self.x as int,
            y: self.y as int,
            width: self.width as int,
            height: self.height as int,
        }
    }
}

/// Where the renderer draws: a rectangle in whole pixels, measured from the
/// bottom left corner of the framebuffer.
#[derive(Clone, Copy, Debug, PartialEq, Eq, Structural)]
pub struct ViewportRect {
    pub x: i64,
    pub y: i64,
    pub width: u64,
    pub height: u64,
}

impl View for ViewportRect {
    type V = Rect;

    open spec fn view(&self) -> Rect {
        Rect {
            x: self.x as int,
            y: self.y as int,
            width: self.width as int,
            height: self.height as int,
        }
    }
}

impl ViewportRect {
    /// Whether the rectangle covers no pixel.
    pub fn is_empty(&self) -> (e: bool)
        ensures
            e == self@.is_empty(),
    {
        self.width == 0 || self.height == 0
    }
}

/// Outside of which nothing is drawn or cleared: a rectangle in whole pixels,
/// measured from the bottom left corner of the framebuffer.
#[derive(Clone, Copy, Debug, PartialEq, Eq, Structural)]
pub struct ScissorRect {
    pub x: i64,
    pub y: i64,
    pub width: u64,
    pub height: u64,
}

impl View for ScissorRect {
    type V = Rect;

    open spec fn view(&self) -> Rect {
        Rect {
            x: self.x as int,
            y: self.y as int,
            width: self.width as int,
            height: self.height as int,
        }
    }
}

impl ScissorRect {
    /// Whether the rectangle covers no pixel.
    pub fn is_empty(&self) -> (e: bool)
        ensures
            e == self@.is_empty(),
    {
        self.width == 0 || self.height == 0
    }
}

/// The extent of the render target, in whole logical units.
#[derive(Clone, Copy, Debug, PartialEq, Eq, Structural)]
pub struct TargetExtent {
    pub width: u32,
    pub height: u32,
}

/// What the user interface hands to a paint callback.
#[derive(Clone, Copy, Debug, PartialEq, Eq, Structural)]
pub struct PaintInfo {
    /// The panel to paint into.
    pub viewport: LogicalRect,
    /// The part of the user interface that is visible after scrolling and clipping.
    pub clip_rect: LogicalRect,
    /// The device pixel ratio, in thousandths.
    pub pixels_per_point: u32,
    /// Height of the framebuffer, in pixels.
    pub screen_height_px: u32,
}

/// Where one frame is drawn: the render target's extent, the viewport of the whole
/// panel, and the scissor box of its visible part. The scissor box never reaches
/// outside the viewport.
#[derive(Clone, Copy, Debug, PartialEq, Eq)]
pub struct FrameInput {
    screen: TargetExtent,
    viewport: ViewportRect,
    scissor_box: ScissorRect,
}

impl FrameInput {
    /// What holds of every frame input: the viewport encloses the scissor box.
    #[verifier::type_invariant]
    pub open spec fn inv(&self) -> bool {
        self.spec_viewport()@.encloses(self.spec_scissor_box()@)
    }

    /// The extent of the render target.
    pub closed spec fn spec_screen(&self) -> TargetExtent {
        self.screen
    }

    /// The viewport of the whole panel.
    pub closed spec fn spec_viewport(&self) -> ViewportRect {
        self.viewport
    }

    /// The scissor box of the visible part of the panel.
    pub closed spec fn spec_scissor_box(&self) -> ScissorRect {
        self.scissor_box
    }

    /// `self` is what `info` maps to: the viewport is the whole panel in pixels,
    /// the scissor box is the visible part of the panel in pixels, and the render
    /// target has the panel's size in whole logical units.
    pub open spec fn is_mapping_of(&self, info: PaintInfo) -> bool {
        &&& self.spec_viewport()@ == to_pixels(
            info.viewport@,
            info.pixels_per_point as int,
            info.screen_height_px as int,
        )
        &&& self.spec_scissor_box()@ == to_pixels(
            info.viewport@.clipped_to(info.clip_rect@),
            info.pixels_per_point as int,
            info.screen_height_px as int,
        )
        &&& self.spec_screen().width == info.viewport.width / STEPS_PER_UNIT
        &&& self.spec_screen().height == info.viewport.height / STEPS_PER_UNIT
    }

    /// Maps the panel and the clip rectangle of a paint callback to pixels. The
    /// viewport is the whole panel; the scissor box is the part of the panel that
    /// the clip rectangle leaves visible, which may be empty. The render target
    /// has the panel's size in whole logical units, fractions dropped.
    pub fn new(info: &PaintInfo) -> (input: FrameInput)
        ensures
            input.is_mapping_of(*info),
            input.spec_viewport()@.encloses(input.spec_scissor_box()@),
    {
        let ratio: u32 = info.pixels_per_point;
        let screen_height: i64 = info.screen_height_px as i64;
        let panel_left: i64 = info.viewport.x as i64;
        let panel_right: i64 = panel_left + info.viewport.width as i64;
        let panel_top: i64 = info.viewport.y as i64;
        let panel_bottom: i64 = panel_top + info.viewport.height as i64;
        let clip_left: i64 = info.clip_rect.x as i64;
        let clip_right: i64 = clip_left + info.clip_rect.width as i64;
        let clip_top: i64 = info.clip_rect.y as i64;
        let clip_bottom: i64 = clip_top + info.clip_rect.height as i64;
        let seen_left: i64 = clamp_to(clip_left, panel_left, panel_right);
        let seen_right: i64 = clamp_to(clip_right, seen_left, panel_right);
        let seen_top: i64 = clamp_to(clip_top, panel_top, panel_bottom);
        let seen_bottom: i64 = clamp_to(clip_bottom, seen_top, panel_bottom);
        proof {
            let r = ratio as int;
            lemma_pixel_edge_bound(panel_left as int, r);
            lemma_pixel_edge_bound(panel_right as int, r);
            lemma_pixel_edge_bound(panel_top as int, r);
            lemma_pixel_edge_bound(panel_bottom as int, r);
            lemma_pixel_edge_monotone(panel_left as int, seen_left as int, r);
            lemma_pixel_edge_monotone(seen_left as int, seen_right as int, r);
            lemma_pixel_edge_monotone(seen_right as int, panel_right as int, r);
            lemma_pixel_edge_monotone(panel_top as int, seen_top as int, r);
            lemma_pixel_edge_monotone(seen_top as int, seen_bottom as int, r);
            lemma_pixel_edge_monotone(seen_bottom as int, panel_bottom as int, r);
        }
        let left: i64 = scale_to_pixel(panel_left, ratio);
        let right: i64 = scale_to_pixel(panel_right, ratio);
        let top: i64 = scale_to_pixel(panel_top, ratio);
        let bottom: i64 = scale_to_pixel(panel_bottom, ratio);
        let cut_left: i64 = scale_to_pixel(seen_left, ratio);
        let cut_right: i64 = scale_to_pixel(seen_right, ratio);
        let cut_top: i64 = scale_to_pixel(seen_top, ratio);
        let cut_bottom: i64 = scale_to_pixel(seen_bottom, ratio);
        FrameInput {
            screen: TargetExtent {
                width: info.viewport.width / STEPS_PER_UNIT,
                height: info.viewport.height / STEPS_PER_UNIT,
            },
            viewport: ViewportRect {
                x: left,
                y: screen_height - bottom,
                width: (right - left) as u64,
                height: (bottom - top) as u64,
            },
            scissor_box: ScissorRect {
                x: cut_left,
                y: screen_height - cut_bottom,
                width: (cut_right - cut_left) as u64,
                height: (cut_bottom - cut_top) as u64,
            },
        }
    }

    /// The extent of the render target.
    #[verifier::when_used_as_spec(spec_screen)]
    pub fn screen(&self) -> (s: TargetExtent)
        ensures
            s == self.spec_screen(),
    {
        self.screen
    }

    /// The viewport of the whole panel.
    #[verifier::when_used_as_spec(spec_viewport)]
    pub fn viewport(&self) -> (v: ViewportRect)
        ensures
            v == self.spec_viewport(),
    {
        self.viewport
    }

    /// The scissor box of the visible part of the panel.
    #[verifier::when_used_as_spec(spec_scissor_box)]
    pub fn scissor_box(&self) -> (s: ScissorRect)
        ensures
            s == self.spec_scissor_box(),
    {
        self.scissor_box
    }
}

/// Moves `v` as little as possible to lie in `lo ..= hi`.
fn clamp_to(v: i64, lo: i64, hi: i64) -> (c: i64)
    requires
        lo <= hi,
    ensures
        c == clamp(v as int, lo as int, hi as int),
        lo <= c <= hi,
{
    if v < lo {
        lo
    } else if v > hi {
        hi
    } else {
        v
    }
}

/// The visible part of a panel is what the panel and the clip rectangle have in
/// common: a point lies in it exactly when it lies in both.
pub proof fn lemma_clipped_is_intersection(panel: Rect, clip: Rect, px: int, py: int)
    requires
        panel.wf(),
        clip.wf(),
    ensures
        panel.clipped_to(clip).contains(px, py) <==> panel.contains(px, py) && clip.contains(
            px,
            py,
        ),
{
}

/// The visible part of a panel is a well-formed rectangle inside the panel,
/// whatever the clip rectangle.
pub proof fn lemma_clipped_within_panel(panel: Rect, clip: Rect)
    requires
        panel.wf(),
    ensures
        panel.clipped_to(clip).wf(),
        panel.encloses(panel.clipped_to(clip)),
{
}

/// A clip rectangle that lies inside the panel is itself the visible part; one
/// that covers the panel leaves all of it visible.
pub proof fn lemma_clipped_when_nested(panel: Rect, clip: Rect)
    requires
        panel.wf(),
        clip.wf(),
    ensures
        panel.encloses(clip) ==> panel.clipped_to(clip) == clip,
        clip.encloses(panel) ==> panel.clipped_to(clip) == panel,
{
}

/// Mapping to pixels keeps rectangles well formed and keeps one inside the other.
pub proof fn lemma_to_pixels_keeps_enclosure(
    outer: Rect,
    inner: Rect,
    ratio: int,
    screen_height: int,
)
    requires
        outer.wf(),
        inner.wf(),
        outer.encloses(inner),
        ratio >= 0,
    ensures
        to_pixels(outer, ratio, screen_height).wf(),
        to_pixels(inner, ratio, screen_height).wf(),
        to_pixels(outer, ratio, screen_height).encloses(to_pixels(inner, ratio, screen_height)),
{
    lemma_pixel_edge_monotone(outer.x, inner.x, ratio);
    lemma_pixel_edge_monotone(inner.x, inner.x_end(), ratio);
    lemma_pixel_edge_monotone(inner.x_end(), outer.x_end(), ratio);
    lemma_pixel_edge_monotone(outer.y, inner.y, ratio);
    lemma_pixel_edge_monotone(inner.y, inner.y_end(), ratio);
    lemma_pixel_edge_monotone(inner.y_end(), outer.y_end(), ratio);
    lemma_pixel_edge_monotone(outer.x, outer.x_end(), ratio);
    lemma_pixel_edge_monotone(outer.y, outer.y_end(), ratio);
}

/// The mapping is a function of its input: whatever `info` maps to, it maps to
/// that and nothing else, so mapping the same input twice gives equal results.
pub proof fn lemma_mapping_is_unique(a: FrameInput, b: FrameInput, info: PaintInfo)
    requires
        a.is_mapping_of(info),
        b.is_mapping_of(info),
    ensures
        a == b,
{
    assert(a.viewport@ == b.viewport@);
    assert(a.scissor_box@ == b.scissor_box@);
}

/// Every pixel of a rectangle is a pixel of each rectangle that encloses it.
pub proof fn lemma_enclosed_pixels_are_contained(outer: Rect, inner: Rect, px: int, py: int)
    requires
        outer.encloses(inner),
        inner.contains(px, py),
    ensures
        outer.contains(px, py),
{
}

/// A viewport that covers no pixel leaves no pixel to its scissor box.
pub proof fn lemma_empty_viewport_has_empty_scissor(viewport: Rect, scissor: Rect)
    requires
        scissor.wf(),
        viewport.encloses(scissor),
        viewport.is_empty(),
    ensures
        scissor.is_empty(),
{
}

/// The scissor box never reaches outside the viewport: for every panel with
/// extents that are not negative, every clip rectangle and every ratio that is
/// not negative, the pixels of the visible part lie among the pixels of the panel.
pub proof fn lemma_scissor_within_viewport(
    panel: Rect,
    clip: Rect,
    ratio: int,
    screen_height: int,
)
    requires
        panel.wf(),
        ratio >= 0,
    ensures
        to_pixels(panel, ratio, screen_height).wf(),
        to_pixels(panel.clipped_to(clip), ratio, screen_height).wf(),
        to_pixels(panel, ratio, screen_height).encloses(
            to_pixels(panel.clipped_to(clip), ratio, screen_height),
        ),
{
    lemma_clipped_within_panel(panel, clip);
    lemma_to_pixels_keeps_enclosure(panel, panel.clipped_to(clip), ratio, screen_height);
}

/// A panel that fills a framebuffer of `width` by `height` pixels exactly, at a
/// device pixel ratio of one, maps to the whole framebuffer.
pub proof fn lemma_full_panel_maps_to_framebuffer(width: int, height: int)
    ensures
        to_pixels(Rect { x: 0, y: 0, width: width * 1000, height: height * 1000 }, 1000, height)
            == (Rect { x: 0, y: 0, width, height }),
{
    lemma_pixel_edge_at_unit_ratio(0);
    lemma_pixel_edge_at_unit_ratio(width);
    lemma_pixel_edge_at_unit_ratio(height);
}

/// Two panels that share an edge share the pixel boundary: where one ends the
/// other begins, with no seam and no overlap.
pub proof fn lemma_adjacent_panels_meet(a: Rect, b: Rect, ratio: int, screen_height: int)
    ensures
        b.x == a.x_end() ==> to_pixels(b, ratio, screen_height).x == to_pixels(
            a,
            ratio,
            screen_height,
        ).x_end(),
        b.y == a.y_end() ==> to_pixels(b, ratio, screen_height).y_end() == to_pixels(
            a,
            ratio,
            screen_height,
        ).y,
{
}

} // verus!
