//! The mapping between screen space and graph space under pan and zoom.

use crate::fixed::{
    floor_div, lemma_div_antitone, lemma_div_monotone, lemma_div_of_difference,
    lemma_div_strictly_antitone, lemma_scale_there_and_back, lemma_whole_factor_there_and_back,
    mul_unit, mul_wide, representable, rescale, rounds_back, saturate, saturating_narrow, UNIT,
};
use crate::geometry::{Pos2, Rect, Vec2};
use vstd::prelude::*;

verus! {

/// The part of graph space that is visible on screen.
///
/// Positions are moved by `offset`, centred on `rect` and scaled; vectors and
/// sizes are only scaled.
#[derive(Clone, Copy, Debug, PartialEq, Eq, Structural)]
pub struct Viewport {
    /// Screen-space rectangle.
    pub rect: Rect,
    /// Screen-space length of one graph-space unit, in fixed point.
    pub scale: i64,
    /// Screen-space offset of the view.
    pub offset: Vec2,
}

/// `(p + offset - center) / scale` on one axis.
pub open spec fn axis_to_graph(p: int, offset: int, center: int, scale: int) -> int {
    rescale(p + offset - center, UNIT as int, scale)
}

/// `p * scale - offset + center` on one axis.
pub open spec fn axis_to_screen(p: int, offset: int, center: int, scale: int) -> int {
    saturate(p * scale / (UNIT as int) - offset + center)
}

/// One coordinate of a position, from screen space to graph space.
fn pos_to_graph(p: i64, offset: i64, center: i64, scale: i64) -> (r: i64)
    requires
        scale > 0,
    ensures
        r == axis_to_graph(p as int, offset as int, center as int, scale as int),
{
    let n: i128 = p as i128 + offset as i128 - center as i128;
    saturating_narrow(floor_div(mul_unit(n), scale as i128))
}

/// One coordinate of a position, from graph space to screen space.
fn pos_to_screen(p: i64, offset: i64, center: i64, scale: i64) -> (r: i64)
    requires
        scale > 0,
    ensures
        r == axis_to_screen(p as int, offset as int, center as int, scale as int),
{
    let scaled: i128 = floor_div(mul_wide(p, scale), UNIT as i128);
    saturating_narrow(scaled - offset as i128 + center as i128)
}

/// A length, from screen space to graph space.
fn size_to_graph(v: i64, scale: i64) -> (r: i64)
    requires
        scale > 0,
    ensures
        r == rescale(v as int, UNIT as int, scale as int),
{
    saturating_narrow(floor_div(mul_unit(v as i128), scale as i128))
}

/// A length, from graph space to screen space.
fn size_to_screen(v: i64, scale: i64) -> (r: i64)
    requires
        scale > 0,
    ensures
        r == rescale(v as int, scale as int, UNIT as int),
{
    saturating_narrow(floor_div(mul_wide(v, scale), UNIT as i128))
}

impl Viewport {
    /// The scale is positive.
    pub open spec fn wf(&self) -> bool {
        self.scale > 0
    }

    /// Whether the scale is positive.
    pub fn is_valid(&self) -> (ok: bool)
        ensures
            ok == self.wf(),
    {
        self.scale > 0
    }

    /// `(pos + offset - center(rect)) / scale` on both axes.
    pub open spec fn spec_screen_pos_to_graph(&self, pos: Pos2) -> Pos2 {
        let c = self.rect.spec_center();
        Pos2 {
            x: axis_to_graph(
                pos.x as int,
                self.offset.x as int,
                c.x as int,
                self.scale as int,
            ) as i64,
            y: axis_to_graph(
                pos.y as int,
                self.offset.y as int,
                c.y as int,
                self.scale as int,
            ) as i64,
        }
    }

    /// `pos * scale - offset + center(rect)` on both axes.
    pub open spec fn spec_graph_pos_to_screen(&self, pos: Pos2) -> Pos2 {
        let c = self.rect.spec_center();
        Pos2 {
            x: axis_to_screen(
                pos.x as int,
                self.offset.x as int,
                c.x as int,
                self.scale as int,
            ) as i64,
            y: axis_to_screen(
                pos.y as int,
                self.offset.y as int,
                c.y as int,
                self.scale as int,
            ) as i64,
        }
    }

    /// `size * scale` on both axes.
    pub open spec fn spec_graph_vec_to_screen(&self, size: Vec2) -> Vec2 {
        Vec2 {
            x: rescale(size.x as int, self.scale as int, UNIT as int) as i64,
            y: rescale(size.y as int, self.scale as int, UNIT as int) as i64,
        }
    }

    /// `size / scale` on both axes.
    pub open spec fn spec_screen_vec_to_graph(&self, size: Vec2) -> Vec2 {
        Vec2 {
            x: rescale(size.x as int, UNIT as int, self.scale as int) as i64,
            y: rescale(size.y as int, UNIT as int, self.scale as int) as i64,
        }
    }

    /// `size * scale`.
    pub open spec fn spec_graph_size_to_screen(&self, size: i64) -> i64 {
        rescale(size as int, self.scale as int, UNIT as int) as i64
    }

    /// `size / scale`.
    pub open spec fn spec_screen_size_to_graph(&self, size: i64) -> i64 {
        rescale(size as int, UNIT as int, self.scale as int) as i64
    }

    /// Converts screen-space position to graph-space position.
    #[verifier::when_used_as_spec(spec_screen_pos_to_graph)]
    pub fn screen_pos_to_graph(&self, pos: Pos2) -> (r: Pos2)
        requires
            self.wf(),
        ensures
            r == self.spec_screen_pos_to_graph(pos),
    {
        let c = self.rect.center();
        Pos2 {
            x: pos_to_graph(pos.x, self.offset.x, c.x, self.scale),
            y: pos_to_graph(pos.y, self.offset.y, c.y, self.scale),
        }
    }

    /// Converts graph-space position to screen-space position.
    #[verifier::when_used_as_spec(spec_graph_pos_to_screen)]
    pub fn graph_pos_to_screen(&self, pos: Pos2) -> (r: Pos2)
        requires
            self.wf(),
        ensures
            r == self.spec_graph_pos_to_screen(pos),
    {
        let c = self.rect.center();
        Pos2 {
            x: pos_to_screen(pos.x, self.offset.x, c.x, self.scale),
            y: pos_to_screen(pos.y, self.offset.y, c.y, self.scale),
        }
    }

    /// Converts graph-space vector to screen-space vector.
    #[verifier::when_used_as_spec(spec_graph_vec_to_screen)]
    pub fn graph_vec_to_screen(&self, size: Vec2) -> (r: Vec2)
        requires
            self.wf(),
        ensures
            r == self.spec_graph_vec_to_screen(size),
    {
        Vec2 { x: size_to_screen(size.x, self.scale), y: size_to_screen(size.y, self.scale) }
    }

    /// Converts screen-space vector to graph-space vector.
    #[verifier::when_used_as_spec(spec_screen_vec_to_graph)]
    pub fn screen_vec_to_graph(&self, size: Vec2) -> (r: Vec2)
        requires
            self.wf(),
        ensures
            r == self.spec_screen_vec_to_graph(size),
    {
        Vec2 { x: size_to_graph(size.x, self.scale), y: size_to_graph(size.y, self.scale) }
    }

    /// Converts graph-space size to screen-space size.
    #[verifier::when_used_as_spec(spec_graph_size_to_screen)]
    pub fn graph_size_to_screen(&self, size: i64) -> (r: i64)
        requires
            self.wf(),
        ensures
            r == self.spec_graph_size_to_screen(size),
    {
        size_to_screen(size, self.scale)
    }

    /// Converts screen-space size to graph-space size.
    #[verifier::when_used_as_spec(spec_screen_size_to_graph)]
    pub fn screen_size_to_graph(&self, size: i64) -> (r: i64)
        requires
            self.wf(),
        ensures
            r == self.spec_screen_size_to_graph(size),
    {
        size_to_graph(size, self.scale)
    }

    /// The graph-space rectangle between the images of the screen rectangle's
    /// two corners.
    pub open spec fn spec_graph_rect(&self) -> Rect {
        Rect {
            min: self.spec_screen_pos_to_graph(self.rect.min),
            max: self.spec_screen_pos_to_graph(self.rect.max),
        }
    }

    /// The part of graph space that the screen rectangle shows.
    #[verifier::when_used_as_spec(spec_graph_rect)]
    pub fn graph_rect(&self) -> (r: Rect)
        requires
            self.wf(),
        ensures
            r == self.spec_graph_rect(),
    {
        Rect::from_min_max(
            self.screen_pos_to_graph(self.rect.min),
            self.screen_pos_to_graph(self.rect.max),
        )
    }
}

/// The product of the two components: the area of a rectangle of that extent.
pub open spec fn area(size: Vec2) -> int {
    size.x * size.y
}

impl Viewport {
    /// The graph-space image of the screen position `pos` is reached without
    /// saturation.
    pub open spec fn graph_pos_representable(&self, pos: Pos2) -> bool {
        let c = self.rect.spec_center();
        &&& representable((pos.x + self.offset.x - c.x) * UNIT / (self.scale as int))
        &&& representable((pos.y + self.offset.y - c.y) * UNIT / (self.scale as int))
    }

    /// The screen-space image of the graph position `pos` is reached without
    /// saturation.
    pub open spec fn screen_pos_representable(&self, pos: Pos2) -> bool {
        let c = self.rect.spec_center();
        &&& representable(pos.x * self.scale / (UNIT as int) - self.offset.x + c.x)
        &&& representable(pos.y * self.scale / (UNIT as int) - self.offset.y + c.y)
    }

    /// The graph-space length of the screen-space length `size` is reached
    /// without saturation.
    pub open spec fn graph_size_representable(&self, size: i64) -> bool {
        representable(size * UNIT / (self.scale as int))
    }

    /// The screen-space length of the graph-space length `size` is reached
    /// without saturation.
    pub open spec fn screen_size_representable(&self, size: i64) -> bool {
        representable(size * self.scale / (UNIT as int))
    }
}

proof fn lemma_axis_screen_round_trip(p: i64, offset: i64, center: i64, scale: i64)
    requires
        scale > 0,
        representable((p + offset - center) * UNIT / (scale as int)),
    ensures
        rounds_back(
            p as int,
            axis_to_screen(
                axis_to_graph(p as int, offset as int, center as int, scale as int),
                offset as int,
                center as int,
                scale as int,
            ),
            UNIT as int,
            scale as int,
        ),
{
    let n = p + offset - center;
    lemma_scale_there_and_back(n, UNIT as int, scale as int);
    let q = n * UNIT / (scale as int);
    let r = q * scale / (UNIT as int);
    let exact = r - offset + center;
    let back = saturate(exact);
    assert(exact == p - (n - r));
    assert(exact <= back <= p);
    assert((p - back) * UNIT <= (n - r) * UNIT) by (nonlinear_arith)
        requires
            p - back <= n - r,
            UNIT > 0,
    ;
}

proof fn lemma_axis_graph_round_trip(p: i64, offset: i64, center: i64, scale: i64)
    requires
        scale > 0,
        representable(p * scale / (UNIT as int) - offset + center),
    ensures
        rounds_back(
            p as int,
            axis_to_graph(
                axis_to_screen(p as int, offset as int, center as int, scale as int),
                offset as int,
                center as int,
                scale as int,
            ),
            scale as int,
            UNIT as int,
        ),
{
    lemma_scale_there_and_back(p as int, scale as int, UNIT as int);
    let r = p * scale / (UNIT as int);
    let screen = r - offset + center;
    assert(screen + offset - center == r);
    let exact = r * UNIT / (scale as int);
    let back = saturate(exact);
    assert(exact <= back <= p);
    assert((p - back) * scale <= (p - exact) * scale) by (nonlinear_arith)
        requires
            p - back <= p - exact,
            scale > 0,
    ;
}

proof fn lemma_size_screen_round_trip(v: i64, scale: i64)
    requires
        scale > 0,
        representable(v * UNIT / (scale as int)),
    ensures
        rounds_back(
            v as int,
            rescale(rescale(v as int, UNIT as int, scale as int), scale as int, UNIT as int),
            UNIT as int,
            scale as int,
        ),
{
    lemma_axis_screen_round_trip(v, 0, 0, scale);
}

proof fn lemma_size_graph_round_trip(v: i64, scale: i64)
    requires
        scale > 0,
        representable(v * scale / (UNIT as int)),
    ensures
        rounds_back(
            v as int,
            rescale(rescale(v as int, scale as int, UNIT as int), UNIT as int, scale as int),
            scale as int,
            UNIT as int,
        ),
{
    lemma_axis_graph_round_trip(v, 0, 0, scale);
}

/// A screen position that is taken to graph space and back is found again,
/// but for the rounding: on either axis the result is not above the position
/// and less than `scale / UNIT + 1` steps below it.
pub proof fn lemma_screen_pos_round_trip(viewport: Viewport, pos: Pos2)
    requires
        viewport.wf(),
        viewport.graph_pos_representable(pos),
    ensures
        ({
            let back = viewport.graph_pos_to_screen(viewport.screen_pos_to_graph(pos));
            &&& rounds_back(pos.x as int, back.x as int, UNIT as int, viewport.scale as int)
            &&& rounds_back(pos.y as int, back.y as int, UNIT as int, viewport.scale as int)
        }),
{
    let c = viewport.rect.spec_center();
    lemma_axis_screen_round_trip(pos.x, viewport.offset.x, c.x, viewport.scale);
    lemma_axis_screen_round_trip(pos.y, viewport.offset.y, c.y, viewport.scale);
}

/// A graph position that is taken to screen space and back is found again,
/// but for the rounding: on either axis the result is not above the position
/// and less than `UNIT / scale + 1` steps below it.
pub proof fn lemma_graph_pos_round_trip(viewport: Viewport, pos: Pos2)
    requires
        viewport.wf(),
        viewport.screen_pos_representable(pos),
    ensures
        ({
            let back = viewport.screen_pos_to_graph(viewport.graph_pos_to_screen(pos));
            &&& rounds_back(pos.x as int, back.x as int, viewport.scale as int, UNIT as int)
            &&& rounds_back(pos.y as int, back.y as int, viewport.scale as int, UNIT as int)
        }),
{
    let c = viewport.rect.spec_center();
    lemma_axis_graph_round_trip(pos.x, viewport.offset.x, c.x, viewport.scale);
    lemma_axis_graph_round_trip(pos.y, viewport.offset.y, c.y, viewport.scale);
}

/// A screen vector that is taken to graph space and back is found again, but
/// for the rounding.
pub proof fn lemma_screen_vec_round_trip(viewport: Viewport, size: Vec2)
    requires
        viewport.wf(),
        viewport.graph_size_representable(size.x),
        viewport.graph_size_representable(size.y),
    ensures
        ({
            let back = viewport.graph_vec_to_screen(viewport.screen_vec_to_graph(size));
            &&& rounds_back(size.x as int, back.x as int, UNIT as int, viewport.scale as int)
            &&& rounds_back(size.y as int, back.y as int, UNIT as int, viewport.scale as int)
        }),
{
    lemma_size_screen_round_trip(size.x, viewport.scale);
    lemma_size_screen_round_trip(size.y, viewport.scale);
}

/// A graph vector that is taken to screen space and back is found again, but
/// for the rounding.
pub proof fn lemma_graph_vec_round_trip(viewport: Viewport, size: Vec2)
    requires
        viewport.wf(),
        viewport.screen_size_representable(size.x),
        viewport.screen_size_representable(size.y),
    ensures
        ({
            let back = viewport.screen_vec_to_graph(viewport.graph_vec_to_screen(size));
            &&& rounds_back(size.x as int, back.x as int, viewport.scale as int, UNIT as int)
            &&& rounds_back(size.y as int, back.y as int, viewport.scale as int, UNIT as int)
        }),
{
    lemma_size_graph_round_trip(size.x, viewport.scale);
    lemma_size_graph_round_trip(size.y, viewport.scale);
}

/// A screen size that is taken to graph space and back is found again, but
/// for the rounding.
pub proof fn lemma_screen_size_round_trip(viewport: Viewport, size: i64)
    requires
        viewport.wf(),
        viewport.graph_size_representable(size),
    ensures
        rounds_back(
            size as int,
            viewport.graph_size_to_screen(viewport.screen_size_to_graph(size)) as int,
            UNIT as int,
            viewport.scale as int,
        ),
{
    lemma_size_screen_round_trip(size, viewport.scale);
}

/// A graph size that is taken to screen space and back is found again, but
/// for the rounding.
pub proof fn lemma_graph_size_round_trip(viewport: Viewport, size: i64)
    requires
        viewport.wf(),
        viewport.screen_size_representable(size),
    ensures
        rounds_back(
            size as int,
            viewport.screen_size_to_graph(viewport.graph_size_to_screen(size)) as int,
            viewport.scale as int,
            UNIT as int,
        ),
{
    lemma_size_graph_round_trip(size, viewport.scale);
}

/// At a whole-number zoom the way from graph space to screen space and back
/// is exact: the scale is `factor` whole units, and the screen position is
/// reached without saturation.
pub proof fn lemma_whole_zoom_round_trip_is_exact(viewport: Viewport, factor: int, pos: Pos2)
    requires
        factor > 0,
        viewport.scale == factor * UNIT,
        viewport.screen_pos_representable(pos),
    ensures
        viewport.screen_pos_to_graph(viewport.graph_pos_to_screen(pos)) == pos,
{
    lemma_whole_factor_there_and_back(pos.x as int, factor, UNIT as int);
    lemma_whole_factor_there_and_back(pos.y as int, factor, UNIT as int);
    let c = viewport.rect.spec_center();
    let sx = pos.x * viewport.scale / (UNIT as int) - viewport.offset.x + c.x;
    let sy = pos.y * viewport.scale / (UNIT as int) - viewport.offset.y + c.y;
    assert(sx + viewport.offset.x - c.x == pos.x * factor);
    assert(sy + viewport.offset.y - c.y == pos.y * factor);
}

/// Vectors and sizes are scaled and never translated: their images depend on
/// the scale alone, not on the rectangle or the offset.
pub proof fn lemma_vectors_ignore_translation(a: Viewport, b: Viewport, size: Vec2)
    requires
        a.scale == b.scale,
    ensures
        a.graph_vec_to_screen(size) == b.graph_vec_to_screen(size),
        a.screen_vec_to_graph(size) == b.screen_vec_to_graph(size),
        a.graph_size_to_screen(size.x) == b.graph_size_to_screen(size.x),
        a.screen_size_to_graph(size.x) == b.screen_size_to_graph(size.x),
{
}

/// At a scale of exactly one, with no offset and a rectangle centred on the
/// origin, graph space and screen space coincide.
pub proof fn lemma_unit_scale_is_identity(viewport: Viewport, pos: Pos2)
    requires
        viewport.scale == UNIT,
        viewport.offset == (Vec2 { x: 0, y: 0 }),
        viewport.rect.spec_center() == (Pos2 { x: 0, y: 0 }),
    ensures
        viewport.screen_pos_to_graph(pos) == pos,
        viewport.graph_pos_to_screen(pos) == pos,
{
    lemma_times_unit_over_unit(pos.x as int);
    lemma_times_unit_over_unit(pos.y as int);
}

proof fn lemma_times_unit_over_unit(v: int)
    ensures
        v * UNIT / (UNIT as int) == v,
{
    assert(v * UNIT / (UNIT as int) == v) by (nonlinear_arith)
        requires
            UNIT == 65536,
    ;
}

/// The transform to graph space keeps the order of positions on either axis,
/// so a screen rectangle with `min` below `max` has a graph rectangle with
/// `min` below `max`.
pub proof fn lemma_graph_rect_ordered(viewport: Viewport)
    requires
        viewport.wf(),
    ensures
        viewport.rect.min.x <= viewport.rect.max.x ==> viewport.spec_graph_rect().min.x
            <= viewport.spec_graph_rect().max.x,
        viewport.rect.min.y <= viewport.rect.max.y ==> viewport.spec_graph_rect().min.y
            <= viewport.spec_graph_rect().max.y,
{
    let c = viewport.rect.spec_center();
    let s = viewport.scale as int;
    if viewport.rect.min.x <= viewport.rect.max.x {
        let a = viewport.rect.min.x + viewport.offset.x - c.x;
        let b = viewport.rect.max.x + viewport.offset.x - c.x;
        assert(a * UNIT <= b * UNIT) by (nonlinear_arith)
            requires
                a <= b,
                UNIT > 0,
        ;
        lemma_div_monotone(a * UNIT, b * UNIT, s);
    }
    if viewport.rect.min.y <= viewport.rect.max.y {
        let a = viewport.rect.min.y + viewport.offset.y - c.y;
        let b = viewport.rect.max.y + viewport.offset.y - c.y;
        assert(a * UNIT <= b * UNIT) by (nonlinear_arith)
            requires
                a <= b,
                UNIT > 0,
        ;
        lemma_div_monotone(a * UNIT, b * UNIT, s);
    }
}

/// The visible graph rectangle is as wide and as high as the size of the
/// screen rectangle divided by the scale, or one step more, where both of its
/// corners are reached without saturation.
pub proof fn lemma_graph_rect_extent(viewport: Viewport)
    requires
        viewport.wf(),
        viewport.graph_pos_representable(viewport.rect.min),
        viewport.graph_pos_representable(viewport.rect.max),
    ensures
        ({
            let visible = viewport.spec_graph_rect();
            let width = (viewport.rect.max.x - viewport.rect.min.x) * UNIT / (
            viewport.scale as int);
            let height = (viewport.rect.max.y - viewport.rect.min.y) * UNIT / (
            viewport.scale as int);
            &&& width <= visible.max.x - visible.min.x <= width + 1
            &&& height <= visible.max.y - visible.min.y <= height + 1
        }),
{
    let c = viewport.rect.spec_center();
    let s = viewport.scale as int;
    let ax = viewport.rect.min.x + viewport.offset.x - c.x;
    let bx = viewport.rect.max.x + viewport.offset.x - c.x;
    let ay = viewport.rect.min.y + viewport.offset.y - c.y;
    let by = viewport.rect.max.y + viewport.offset.y - c.y;
    lemma_div_of_difference(ax * UNIT, bx * UNIT, s);
    lemma_div_of_difference(ay * UNIT, by * UNIT, s);
    assert(bx * UNIT - ax * UNIT == (viewport.rect.max.x - viewport.rect.min.x) * UNIT)
        by (nonlinear_arith)
        requires
            bx - ax == viewport.rect.max.x - viewport.rect.min.x,
    ;
    assert(by * UNIT - ay * UNIT == (viewport.rect.max.y - viewport.rect.min.y) * UNIT)
        by (nonlinear_arith)
        requires
            by - ay == viewport.rect.max.y - viewport.rect.min.y,
    ;
}

/// Zooming in does not enlarge what a screen extent covers in graph space:
/// with the larger scale neither component of the graph-space extent grows,
/// nor does its area.
pub proof fn lemma_zoom_shrinks_graph_extent(near: Viewport, far: Viewport, size: Vec2)
    requires
        near.wf(),
        far.wf(),
        far.scale <= near.scale,
        size.x >= 0,
        size.y >= 0,
    ensures
        0 <= near.screen_vec_to_graph(size).x <= far.screen_vec_to_graph(size).x,
        0 <= near.screen_vec_to_graph(size).y <= far.screen_vec_to_graph(size).y,
        area(near.screen_vec_to_graph(size)) <= area(far.screen_vec_to_graph(size)),
{
    lemma_div_antitone(size.x * UNIT, far.scale as int, near.scale as int);
    lemma_div_antitone(size.y * UNIT, far.scale as int, near.scale as int);
    let nx = near.screen_vec_to_graph(size).x;
    let ny = near.screen_vec_to_graph(size).y;
    let fx = far.screen_vec_to_graph(size).x;
    let fy = far.screen_vec_to_graph(size).y;
    assert(nx * ny <= fx * fy) by (nonlinear_arith)
        requires
            0 <= nx <= fx,
            0 <= ny <= fy,
    ;
}

/// Zooming in strictly shrinks the graph-space area that a screen extent
/// covers, where the rounding can tell the two scales apart: on both axes the
/// exact quotients by the two scales lie at least one step apart, and the
/// extent at the smaller scale is reached without saturation.
pub proof fn lemma_zoom_strictly_shrinks_graph_area(near: Viewport, far: Viewport, size: Vec2)
    requires
        near.wf(),
        far.wf(),
        far.scale < near.scale,
        size.x >= 0,
        size.y >= 0,
        far.graph_size_representable(size.x),
        far.graph_size_representable(size.y),
        size.x * UNIT * (near.scale - far.scale) >= far.scale * near.scale,
        size.y * UNIT * (near.scale - far.scale) >= far.scale * near.scale,
    ensures
        area(near.screen_vec_to_graph(size)) < area(far.screen_vec_to_graph(size)),
{
    lemma_div_strictly_antitone(size.x * UNIT, far.scale as int, near.scale as int);
    lemma_div_strictly_antitone(size.y * UNIT, far.scale as int, near.scale as int);
    let nx = near.screen_vec_to_graph(size).x;
    let ny = near.screen_vec_to_graph(size).y;
    let fx = far.screen_vec_to_graph(size).x;
    let fy = far.screen_vec_to_graph(size).y;
    assert(nx * ny < fx * fy) by (nonlinear_arith)
        requires
            0 <= nx < fx,
            0 <= ny < fy,
    ;
}

} // verus!
