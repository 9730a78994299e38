//! The pattern behind the nodes and wires: which of its lines a viewport
//! shows, and where on screen each of them runs.

use crate::fixed::UNIT;
use crate::geometry::{
    lemma_rotate_bb_holds_points, lemma_rotate_by_quarter_turn, lemma_rotate_by_zero, max_int,
    min_int, Angle, Pos2, Rect, Vec2,
};
use crate::lattice::{
    lemma_line_coordinates_exact, lemma_line_count_bounded, lemma_line_count_mirrored,
    line_coordinates, on_lattice, spec_line_coordinates,
};
use crate::viewport::{lemma_graph_rect_ordered, Viewport};
use vstd::prelude::*;

verus! {

/// Spacing of the default grid along either axis: fifty units.
pub const DEFAULT_GRID_SPACING: i64 = 3_276_800;

/// Cosine of the default grid's angle, one radian, rounded to the nearest step.
pub const DEFAULT_GRID_ANGLE_COS: i64 = 35_409;

/// Sine of the default grid's angle, one radian, rounded to the nearest step.
pub const DEFAULT_GRID_ANGLE_SIN: i64 = 55_147;

/// A straight line between two screen-space positions.
#[derive(Clone, Copy, Debug, PartialEq, Eq, Structural)]
pub struct LineSegment {
    pub start: Pos2,
    pub end: Pos2,
}

/// Grid background pattern: two families of parallel lines, one along each
/// axis of a rotated frame.
#[derive(Clone, Copy, Debug, PartialEq, Eq, Structural)]
pub struct Grid {
    /// Spacing between grid lines, along each axis of the grid's own frame.
    pub spacing: Vec2,
    /// Angle of the grid against the axes of graph space.
    pub angle: Angle,
}

/// Background pattern shown beneath nodes and wires.
#[derive(Clone, Copy, Debug, PartialEq, Eq, Structural)]
pub enum BackgroundPattern {
    /// No pattern.
    NoPattern,
    /// Linear grid.
    Grid(Grid),
}

/// A spacing below one unit counts as one unit.
pub open spec fn clamp_spacing(s: i64) -> i64 {
    if s > UNIT {
        s
    } else {
        UNIT
    }
}

impl Grid {
    /// The grid of the given spacing and angle.
    pub open spec fn spec_new(spacing: Vec2, angle: Angle) -> Grid {
        Grid { spacing, angle }
    }

    /// Create new grid with given spacing and angle.
    #[verifier::when_used_as_spec(spec_new)]
    pub fn new(spacing: Vec2, angle: Angle) -> (g: Grid)
        ensures
            g == Grid::spec_new(spacing, angle),
    {
        Grid { spacing, angle }
    }

    /// The angle is well formed. The spacing is free: it is clamped on use.
    pub open spec fn wf(&self) -> bool {
        self.angle.wf()
    }

    /// Whether the grid is well formed.
    pub fn is_valid(&self) -> (ok: bool)
        ensures
            ok == self.wf(),
    {
        self.angle.is_valid()
    }

    /// The spacing by which lines are enumerated: at least one unit on either
    /// axis.
    pub open spec fn spec_effective_spacing(&self) -> Vec2 {
        Vec2 { x: clamp_spacing(self.spacing.x), y: clamp_spacing(self.spacing.y) }
    }

    /// Clamps the spacing: a grid with no spacing, or a negative one, would
    /// have no end of lines.
    #[verifier::when_used_as_spec(spec_effective_spacing)]
    pub fn effective_spacing(&self) -> (s: Vec2)
        ensures
            s == self.spec_effective_spacing(),
            s.x >= UNIT,
            s.y >= UNIT,
    {
        Vec2 {
            x: if self.spacing.x > UNIT { self.spacing.x } else { UNIT },
            y: if self.spacing.y > UNIT { self.spacing.y } else { UNIT },
        }
    }

    /// The box, in the grid's own frame, around the visible part of graph
    /// space.
    pub open spec fn spec_pattern_bounds(&self, viewport: &Viewport) -> Rect {
        viewport.spec_graph_rect().spec_rotate_bb(self.angle.spec_inverse())
    }

    /// Turns the visible part of graph space into the grid's own frame and
    /// returns the axis-aligned box around it. Lines outside the box cannot be
    /// seen.
    #[verifier::when_used_as_spec(spec_pattern_bounds)]
    pub fn pattern_bounds(&self, viewport: &Viewport) -> (r: Rect)
        requires
            self.wf(),
            viewport.wf(),
        ensures
            r == self.spec_pattern_bounds(viewport),
            r.min.x <= r.max.x,
            r.min.y <= r.max.y,
    {
        viewport.graph_rect().rotate_bb(self.angle.inverse())
    }

    /// The screen-space segment of the segment that runs from `a` to `b` in
    /// the grid's own frame.
    pub open spec fn spec_line(&self, viewport: &Viewport, a: Vec2, b: Vec2) -> LineSegment {
        LineSegment {
            start: viewport.spec_graph_pos_to_screen(self.angle.spec_rotate(a).spec_to_pos2()),
            end: viewport.spec_graph_pos_to_screen(self.angle.spec_rotate(b).spec_to_pos2()),
        }
    }

    /// Takes a segment of the grid's own frame to the screen: each end is
    /// rotated by the grid's angle into graph space and from there transformed
    /// as a position.
    #[verifier::when_used_as_spec(spec_line)]
    pub fn line(&self, viewport: &Viewport, a: Vec2, b: Vec2) -> (l: LineSegment)
        requires
            self.wf(),
            viewport.wf(),
        ensures
            l == self.spec_line(viewport, a, b),
    {
        LineSegment {
            start: viewport.graph_pos_to_screen(self.angle.rotate(a).to_pos2()),
            end: viewport.graph_pos_to_screen(self.angle.rotate(b).to_pos2()),
        }
    }

    /// The x coordinates, in the grid's own frame, of the lines that cross
    /// the pattern bounds from top to bottom.
    pub open spec fn spec_columns(&self, viewport: &Viewport) -> Seq<i64> {
        let bounds = self.spec_pattern_bounds(viewport);
        spec_line_coordinates(bounds.min.x, bounds.max.x, self.spec_effective_spacing().x)
    }

    /// The y coordinates, in the grid's own frame, of the lines that cross
    /// the pattern bounds from left to right.
    pub open spec fn spec_rows(&self, viewport: &Viewport) -> Seq<i64> {
        let bounds = self.spec_pattern_bounds(viewport);
        spec_line_coordinates(bounds.min.y, bounds.max.y, self.spec_effective_spacing().y)
    }

    /// One segment for each column, in rising order of x.
    pub open spec fn spec_column_lines(&self, viewport: &Viewport) -> Seq<LineSegment> {
        let bounds = self.spec_pattern_bounds(viewport);
        let xs = self.spec_columns(viewport);
        Seq::new(
            xs.len(),
            |k: int|
                self.spec_line(
                    viewport,
                    Vec2 { x: xs[k], y: bounds.min.y },
                    Vec2 { x: xs[k], y: bounds.max.y },
                ),
        )
    }

    /// One segment for each row, in rising order of y.
    pub open spec fn spec_row_lines(&self, viewport: &Viewport) -> Seq<LineSegment> {
        let bounds = self.spec_pattern_bounds(viewport);
        let ys = self.spec_rows(viewport);
        Seq::new(
            ys.len(),
            |k: int|
                self.spec_line(
                    viewport,
                    Vec2 { x: bounds.min.x, y: ys[k] },
                    Vec2 { x: bounds.max.x, y: ys[k] },
                ),
        )
    }

    /// The segments to stroke: the columns, then the rows.
    pub open spec fn spec_draw(&self, viewport: &Viewport) -> Seq<LineSegment> {
        self.spec_column_lines(viewport) + self.spec_row_lines(viewport)
    }

    /// Lists the x coordinates of the visible columns: every multiple of the
    /// effective spacing between the left and the right edge of the pattern
    /// bounds, each once, in rising order.
    pub fn columns(&self, viewport: &Viewport) -> (xs: Vec<i64>)
        requires
            self.wf(),
            viewport.wf(),
        ensures
            xs@ == self.spec_columns(viewport),
            forall|i: int, j: int| 0 <= i < j < xs@.len() ==> xs@[i] < xs@[j],
            forall|x: i64|
                #[trigger] xs@.contains(x) <==> (self.spec_pattern_bounds(viewport).min.x <= x
                    <= self.spec_pattern_bounds(viewport).max.x && on_lattice(
                    x as int,
                    self.spec_effective_spacing().x as int,
                )),
    {
        let bounds = self.pattern_bounds(viewport);
        line_coordinates(bounds.min.x, bounds.max.x, self.effective_spacing().x)
    }

    /// Lists the y coordinates of the visible rows: every multiple of the
    /// effective spacing between the top and the bottom edge of the pattern
    /// bounds, each once, in rising order.
    pub fn rows(&self, viewport: &Viewport) -> (ys: Vec<i64>)
        requires
            self.wf(),
            viewport.wf(),
        ensures
            ys@ == self.spec_rows(viewport),
            forall|i: int, j: int| 0 <= i < j < ys@.len() ==> ys@[i] < ys@[j],
            forall|y: i64|
                #[trigger] ys@.contains(y) <==> (self.spec_pattern_bounds(viewport).min.y <= y
                    <= self.spec_pattern_bounds(viewport).max.y && on_lattice(
                    y as int,
                    self.spec_effective_spacing().y as int,
                )),
    {
        let bounds = self.pattern_bounds(viewport);
        line_coordinates(bounds.min.y, bounds.max.y, self.effective_spacing().y)
    }

    /// Lists the screen-space segments of the grid lines that can be seen
    /// through `viewport`: first the columns in rising order of x, then the
    /// rows in rising order of y, each running from one edge of the pattern
    /// bounds to the opposite one.
    pub fn draw(&self, viewport: &Viewport) -> (lines: Vec<LineSegment>)
        requires
            self.wf(),
            viewport.wf(),
        ensures
            lines@ == self.spec_draw(viewport),
    {
        let spacing = self.effective_spacing();
        let bounds = self.pattern_bounds(viewport);
        let xs = line_coordinates(bounds.min.x, bounds.max.x, spacing.x);
        let ys = line_coordinates(bounds.min.y, bounds.max.y, spacing.y);
        let mut lines: Vec<LineSegment> = Vec::new();

        let mut i: usize = 0;
        while i < xs.len()
            invariant
                self.wf(),
                viewport.wf(),
                bounds == self.spec_pattern_bounds(viewport),
                xs@ == self.spec_columns(viewport),
                i <= xs.len(),
                lines@ == self.spec_column_lines(viewport).take(i as int),
            decreases xs.len() - i,
        {
            let x = xs[i];
            let top = Vec2 { x, y: bounds.min.y };
            let bottom = Vec2 { x, y: bounds.max.y };
            lines.push(self.line(viewport, top, bottom));
            i = i + 1;
            assert(lines@ =~= self.spec_column_lines(viewport).take(i as int));
        }
        assert(lines@ =~= self.spec_column_lines(viewport));

        let mut j: usize = 0;
        while j < ys.len()
            invariant
                self.wf(),
                viewport.wf(),
                bounds == self.spec_pattern_bounds(viewport),
                ys@ == self.spec_rows(viewport),
                j <= ys.len(),
                lines@ == self.spec_column_lines(viewport) + self.spec_row_lines(viewport).take(
                    j as int,
                ),
            decreases ys.len() - j,
        {
            let y = ys[j];
            let left = Vec2 { x: bounds.min.x, y };
            let right = Vec2 { x: bounds.max.x, y };
            lines.push(self.line(viewport, left, right));
            j = j + 1;
            assert(lines@ =~= self.spec_column_lines(viewport) + self.spec_row_lines(
                viewport,
            ).take(j as int));
        }
        assert(lines@ =~= self.spec_draw(viewport));
        lines
    }
}

impl Default for Grid {
    /// Fifty units between lines on both axes, at an angle of one radian.
    fn default() -> (g: Grid)
        ensures
            g == (Grid {
                spacing: Vec2 { x: DEFAULT_GRID_SPACING, y: DEFAULT_GRID_SPACING },
                angle: Angle { cos: DEFAULT_GRID_ANGLE_COS, sin: DEFAULT_GRID_ANGLE_SIN },
            }),
            g.wf(),
    {
        Grid {
            spacing: Vec2 { x: DEFAULT_GRID_SPACING, y: DEFAULT_GRID_SPACING },
            angle: Angle { cos: DEFAULT_GRID_ANGLE_COS, sin: DEFAULT_GRID_ANGLE_SIN },
        }
    }
}

impl BackgroundPattern {
    /// A grid is well formed where its angle is; no pattern always is.
    pub open spec fn wf(&self) -> bool {
        match self {
            BackgroundPattern::NoPattern => true,
            BackgroundPattern::Grid(g) => g.wf(),
        }
    }

    /// Whether the pattern is well formed.
    pub fn is_valid(&self) -> (ok: bool)
        ensures
            ok == self.wf(),
    {
        match self {
            BackgroundPattern::NoPattern => true,
            BackgroundPattern::Grid(g) => g.is_valid(),
        }
    }

    /// The default pattern.
    pub open spec fn spec_new() -> BackgroundPattern {
        BackgroundPattern::Grid(
            Grid {
                spacing: Vec2 { x: DEFAULT_GRID_SPACING, y: DEFAULT_GRID_SPACING },
                angle: Angle { cos: DEFAULT_GRID_ANGLE_COS, sin: DEFAULT_GRID_ANGLE_SIN },
            },
        )
    }

    /// Create new background pattern with default values.
    ///
    /// Default pattern is `Grid` with spacing `(50, 50)` and angle one radian.
    #[verifier::when_used_as_spec(spec_new)]
    pub fn new() -> (p: BackgroundPattern)
        ensures
            p == BackgroundPattern::spec_new(),
            p.wf(),
    {
        BackgroundPattern::Grid(
            Grid::new(
                Vec2 { x: DEFAULT_GRID_SPACING, y: DEFAULT_GRID_SPACING },
                Angle { cos: DEFAULT_GRID_ANGLE_COS, sin: DEFAULT_GRID_ANGLE_SIN },
            ),
        )
    }

    /// The grid pattern of the given spacing and angle.
    pub open spec fn spec_grid(spacing: Vec2, angle: Angle) -> BackgroundPattern {
        BackgroundPattern::Grid(Grid { spacing, angle })
    }

    /// Create new grid background pattern with given spacing and angle.
    #[verifier::when_used_as_spec(spec_grid)]
    pub fn grid(spacing: Vec2, angle: Angle) -> (p: BackgroundPattern)
        ensures
            p == BackgroundPattern::spec_grid(spacing, angle),
    {
        BackgroundPattern::Grid(Grid::new(spacing, angle))
    }

    /// The segments to stroke: none for no pattern, the grid's lines for a
    /// grid.
    pub open spec fn spec_draw(&self, viewport: &Viewport) -> Seq<LineSegment> {
        match self {
            BackgroundPattern::NoPattern => Seq::empty(),
            BackgroundPattern::Grid(g) => g.spec_draw(viewport),
        }
    }

    /// Draws background pattern: lists the segments to stroke, in order.
    ///
    /// The result depends on the pattern and the viewport alone. No pattern
    /// gives no segment, whatever the viewport.
    pub fn draw(&self, viewport: &Viewport) -> (lines: Vec<LineSegment>)
        requires
            self.wf(),
            viewport.wf(),
        ensures
            lines@ == self.spec_draw(viewport),
            self is NoPattern ==> lines@.len() == 0,
    {
        match self {
            BackgroundPattern::Grid(g) => g.draw(viewport),
            BackgroundPattern::NoPattern => Vec::new(),
        }
    }
}

impl Default for BackgroundPattern {
    fn default() -> (p: BackgroundPattern)
        ensures
            p == BackgroundPattern::spec_new(),
            p.wf(),
    {
        BackgroundPattern::new()
    }
}

/// A grid draws one segment for each visible column and one for each
/// visible row.
pub proof fn lemma_draw_len(grid: Grid, viewport: Viewport)
    ensures
        grid.spec_draw(&viewport).len() == grid.spec_columns(&viewport).len() + grid.spec_rows(
            &viewport,
        ).len(),
{
}

/// Grids of one angle whose spacings clamp to the same values draw the same
/// segments. A spacing of zero, or any other below one unit, therefore draws
/// as a spacing of one unit.
pub proof fn lemma_draw_by_effective_spacing(grid: Grid, other: Grid, viewport: Viewport)
    requires
        grid.angle == other.angle,
        grid.spec_effective_spacing() == other.spec_effective_spacing(),
    ensures
        grid.spec_draw(&viewport) == other.spec_draw(&viewport),
{
    assert(grid.spec_column_lines(&viewport) =~= other.spec_column_lines(&viewport));
    assert(grid.spec_row_lines(&viewport) =~= other.spec_row_lines(&viewport));
}

/// A spacing of zero draws as a spacing of one unit.
pub proof fn lemma_zero_spacing_draws_as_unit(angle: Angle, viewport: Viewport)
    ensures
        Grid::new(Vec2 { x: 0, y: 0 }, angle).spec_draw(&viewport) == Grid::new(
            Vec2 { x: UNIT, y: UNIT },
            angle,
        ).spec_draw(&viewport),
{
    lemma_draw_by_effective_spacing(
        Grid::new(Vec2 { x: 0, y: 0 }, angle),
        Grid::new(Vec2 { x: UNIT, y: UNIT }, angle),
        viewport,
    );
}

/// Whatever the spacing, the number of segments is bounded by the size of
/// the pattern bounds: on either axis at most one line for each whole unit
/// of the extent, and one more.
pub proof fn lemma_draw_len_bounded(grid: Grid, viewport: Viewport)
    requires
        grid.wf(),
        viewport.wf(),
    ensures
        ({
            let bounds = grid.spec_pattern_bounds(&viewport);
            grid.spec_draw(&viewport).len() <= (bounds.max.x - bounds.min.x) / (UNIT as int) + (
            bounds.max.y - bounds.min.y) / (UNIT as int) + 2
        }),
{
    let bounds = grid.spec_pattern_bounds(&viewport);
    let spacing = grid.spec_effective_spacing();
    lemma_line_count_bounded(
        bounds.min.x as int,
        bounds.max.x as int,
        spacing.x as int,
        UNIT as int,
    );
    lemma_line_count_bounded(
        bounds.min.y as int,
        bounds.max.y as int,
        spacing.y as int,
        UNIT as int,
    );
}

/// No visible line is missed, at whatever angle the grid stands. Take any
/// position of the visible graph rectangle into the grid's own frame: it
/// falls inside the pattern bounds, and where it lies on a column or on a
/// row, that column or row is among those drawn.
pub proof fn lemma_visible_lines_are_drawn(grid: Grid, viewport: Viewport, pos: Pos2)
    requires
        viewport.spec_graph_rect().min.x <= pos.x <= viewport.spec_graph_rect().max.x,
        viewport.spec_graph_rect().min.y <= pos.y <= viewport.spec_graph_rect().max.y,
    ensures
        ({
            let local = grid.angle.spec_inverse().spec_rotate(pos.spec_to_vec2());
            let bounds = grid.spec_pattern_bounds(&viewport);
            let spacing = grid.spec_effective_spacing();
            &&& bounds.min.x <= local.x <= bounds.max.x
            &&& bounds.min.y <= local.y <= bounds.max.y
            &&& on_lattice(local.x as int, spacing.x as int) ==> grid.spec_columns(
                &viewport,
            ).contains(local.x)
            &&& on_lattice(local.y as int, spacing.y as int) ==> grid.spec_rows(
                &viewport,
            ).contains(local.y)
        }),
{
    let bounds = grid.spec_pattern_bounds(&viewport);
    let spacing = grid.spec_effective_spacing();
    lemma_rotate_bb_holds_points(
        viewport.spec_graph_rect(),
        grid.angle.spec_inverse(),
        pos.spec_to_vec2(),
    );
    lemma_line_coordinates_exact(bounds.min.x, bounds.max.x, spacing.x);
    lemma_line_coordinates_exact(bounds.min.y, bounds.max.y, spacing.y);
}

/// For a grid that is not rotated, and a screen rectangle with `min` below
/// `max`, the pattern bounds are the visible graph rectangle itself. The
/// columns are then exactly the multiples of the spacing between its left
/// and right edge, and the rows those between its top and bottom edge: none
/// is left out, and by their strict order none comes twice.
pub proof fn lemma_unrotated_grid_covers_viewport(grid: Grid, viewport: Viewport)
    requires
        viewport.wf(),
        grid.angle == (Angle { cos: UNIT, sin: 0 }),
        viewport.rect.min.x <= viewport.rect.max.x,
        viewport.rect.min.y <= viewport.rect.max.y,
    ensures
        grid.spec_pattern_bounds(&viewport) == viewport.spec_graph_rect(),
        forall|x: i64|
            #[trigger] grid.spec_columns(&viewport).contains(x) <==> (
            viewport.spec_graph_rect().min.x <= x <= viewport.spec_graph_rect().max.x
                && on_lattice(x as int, grid.spec_effective_spacing().x as int)),
        forall|y: i64|
            #[trigger] grid.spec_rows(&viewport).contains(y) <==> (
            viewport.spec_graph_rect().min.y <= y <= viewport.spec_graph_rect().max.y
                && on_lattice(y as int, grid.spec_effective_spacing().y as int)),
        forall|i: int, j: int|
            0 <= i < j < grid.spec_columns(&viewport).len() ==> grid.spec_columns(&viewport)[i]
                < grid.spec_columns(&viewport)[j],
        forall|i: int, j: int|
            0 <= i < j < grid.spec_rows(&viewport).len() ==> grid.spec_rows(&viewport)[i]
                < grid.spec_rows(&viewport)[j],
{
    let visible = viewport.spec_graph_rect();
    lemma_graph_rect_ordered(viewport);
    lemma_rotate_by_zero(Vec2 { x: visible.min.x, y: visible.min.y });
    lemma_rotate_by_zero(Vec2 { x: visible.max.x, y: visible.min.y });
    lemma_rotate_by_zero(Vec2 { x: visible.min.x, y: visible.max.y });
    lemma_rotate_by_zero(Vec2 { x: visible.max.x, y: visible.max.y });
    let spacing = grid.spec_effective_spacing();
    lemma_line_coordinates_exact(visible.min.x, visible.max.x, spacing.x);
    lemma_line_coordinates_exact(visible.min.y, visible.max.y, spacing.y);
}

/// The columns of a grid that is not rotated are vertical on screen and its
/// rows horizontal: the two ends of a segment agree in the coordinate that
/// the line is drawn at.
pub proof fn lemma_unrotated_lines_are_axis_aligned(grid: Grid, viewport: Viewport)
    requires
        grid.angle == (Angle { cos: UNIT, sin: 0 }),
    ensures
        forall|k: int|
            0 <= k < grid.spec_column_lines(&viewport).len() ==> (#[trigger] grid.spec_column_lines(
                &viewport,
            )[k]).start.x == grid.spec_column_lines(&viewport)[k].end.x,
        forall|k: int|
            0 <= k < grid.spec_row_lines(&viewport).len() ==> (#[trigger] grid.spec_row_lines(
                &viewport,
            )[k]).start.y == grid.spec_row_lines(&viewport)[k].end.y,
{
    let bounds = grid.spec_pattern_bounds(&viewport);
    let xs = grid.spec_columns(&viewport);
    let ys = grid.spec_rows(&viewport);
    assert forall|k: int| 0 <= k < grid.spec_column_lines(&viewport).len() implies (
    #[trigger] grid.spec_column_lines(&viewport)[k]).start.x == grid.spec_column_lines(
        &viewport,
    )[k].end.x by {
        lemma_rotate_by_zero(Vec2 { x: xs[k], y: bounds.min.y });
        lemma_rotate_by_zero(Vec2 { x: xs[k], y: bounds.max.y });
    }
    assert forall|k: int| 0 <= k < grid.spec_row_lines(&viewport).len() implies (
    #[trigger] grid.spec_row_lines(&viewport)[k]).start.y == grid.spec_row_lines(
        &viewport,
    )[k].end.y by {
        lemma_rotate_by_zero(Vec2 { x: bounds.min.x, y: ys[k] });
        lemma_rotate_by_zero(Vec2 { x: bounds.max.x, y: ys[k] });
    }
}

/// For a square screen rectangle and an offset that is the same on both
/// axes (none at all, where the view is centred on the origin), a square
/// grid shows as many lines after a quarter turn as without rotation.
///
/// The visible graph rectangle must stay clear of the lowest coordinate,
/// whose negative the range does not hold.
pub proof fn lemma_quarter_turn_keeps_line_count(spacing: i64, viewport: Viewport)
    requires
        viewport.wf(),
        viewport.rect.max.x - viewport.rect.min.x == viewport.rect.max.y - viewport.rect.min.y,
        viewport.offset.x == viewport.offset.y,
        viewport.spec_graph_rect().min.x > i64::MIN,
        viewport.spec_graph_rect().max.x > i64::MIN,
    ensures
        Grid::new(Vec2 { x: spacing, y: spacing }, Angle { cos: 0, sin: UNIT }).spec_draw(
            &viewport,
        ).len() == Grid::new(Vec2 { x: spacing, y: spacing }, Angle { cos: UNIT, sin: 0 }).spec_draw(
            &viewport,
        ).len(),
{
    let turned = Grid::new(Vec2 { x: spacing, y: spacing }, Angle { cos: 0, sin: UNIT });
    let straight = Grid::new(Vec2 { x: spacing, y: spacing }, Angle { cos: UNIT, sin: 0 });
    let visible = viewport.spec_graph_rect();
    assert(visible.min.x == visible.min.y);
    assert(visible.max.x == visible.max.y);
    let lo = visible.min.x;
    let hi = visible.max.x;
    lemma_rotate_by_zero(Vec2 { x: lo, y: lo });
    lemma_rotate_by_zero(Vec2 { x: hi, y: lo });
    lemma_rotate_by_zero(Vec2 { x: lo, y: hi });
    lemma_rotate_by_zero(Vec2 { x: hi, y: hi });
    lemma_rotate_by_quarter_turn(Vec2 { x: lo, y: lo });
    lemma_rotate_by_quarter_turn(Vec2 { x: hi, y: lo });
    lemma_rotate_by_quarter_turn(Vec2 { x: lo, y: hi });
    lemma_rotate_by_quarter_turn(Vec2 { x: hi, y: hi });
    let a = min_int(lo as int, hi as int);
    let b = max_int(lo as int, hi as int);
    let sb = straight.spec_pattern_bounds(&viewport);
    let tb = turned.spec_pattern_bounds(&viewport);
    assert(sb.min.x == a && sb.max.x == b && sb.min.y == a && sb.max.y == b);
    assert(tb.min.x == a && tb.max.x == b && tb.min.y == -b && tb.max.y == -a);
    lemma_line_count_mirrored(a, b, clamp_spacing(spacing) as int);
}

} // verus!
