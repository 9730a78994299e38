use grid_pattern::pattern::{DEFAULT_GRID_ANGLE_COS, DEFAULT_GRID_ANGLE_SIN, DEFAULT_GRID_SPACING};
use grid_pattern::{Angle, BackgroundPattern, Grid, LineSegment, Pos2, Rect, Vec2, Viewport, UNIT};

fn px(v: i64) -> i64 {
    v * UNIT
}

fn square_viewport(side: i64) -> Viewport {
    Viewport {
        rect: Rect::from_min_max(Pos2::new(0, 0), Pos2::new(px(side), px(side))),
        scale: UNIT,
        offset: Vec2::new(0, 0),
    }
}

fn wide_viewport() -> Viewport {
    Viewport {
        rect: Rect::from_min_max(Pos2::new(0, 0), Pos2::new(px(800), px(600))),
        scale: 81_920,
        offset: Vec2::new(px(13), px(7)),
    }
}

fn segment(ax: i64, ay: i64, bx: i64, by: i64) -> LineSegment {
    LineSegment { start: Pos2::new(ax, ay), end: Pos2::new(bx, by) }
}

#[test]
fn default_grid_has_spacing_fifty_and_angle_one_radian() {
    let g = Grid::default();
    assert_eq!(g.spacing, Vec2::new(px(50), px(50)));
    assert_eq!(g.angle, Angle { cos: 35_409, sin: 55_147 });
    assert_eq!(DEFAULT_GRID_SPACING, 50 * UNIT);
    assert_eq!(DEFAULT_GRID_ANGLE_COS, (1.0_f64.cos() * UNIT as f64).round() as i64);
    assert_eq!(DEFAULT_GRID_ANGLE_SIN, (1.0_f64.sin() * UNIT as f64).round() as i64);
    assert!(g.is_valid());
}

#[test]
fn default_pattern_is_the_default_grid() {
    assert_eq!(BackgroundPattern::new(), BackgroundPattern::Grid(Grid::default()));
    assert_eq!(BackgroundPattern::default(), BackgroundPattern::new());
    assert!(BackgroundPattern::new().is_valid());
}

#[test]
fn grid_constructors_keep_their_arguments() {
    let spacing = Vec2::new(px(20), px(30));
    let angle = Angle::quarter_turn();
    let g = Grid::new(spacing, angle);
    assert_eq!(g, Grid { spacing, angle });
    assert_eq!(BackgroundPattern::grid(spacing, angle), BackgroundPattern::Grid(g));
}

#[test]
fn pattern_validity_follows_the_angle() {
    let bad = Angle { cos: 2 * UNIT, sin: 0 };
    assert!(!Grid::new(Vec2::new(1, 1), bad).is_valid());
    assert!(!BackgroundPattern::grid(Vec2::new(1, 1), bad).is_valid());
    assert!(BackgroundPattern::NoPattern.is_valid());
    assert!(Grid::new(Vec2::new(-5, 0), Angle::zero()).is_valid());
}

#[test]
fn no_pattern_draws_nothing() {
    let none = BackgroundPattern::NoPattern;
    assert!(none.draw(&square_viewport(500)).is_empty());
    assert!(none.draw(&wide_viewport()).is_empty());
    let tiny = Viewport {
        rect: Rect::from_min_max(Pos2::new(i64::MIN, i64::MIN), Pos2::new(i64::MAX, i64::MAX)),
        scale: 1,
        offset: Vec2::new(i64::MAX, i64::MIN),
    };
    assert!(none.draw(&tiny).is_empty());
}

#[test]
fn effective_spacing_is_at_least_one_unit() {
    let angle = Angle::zero();
    assert_eq!(Grid::new(Vec2::new(0, 0), angle).effective_spacing(), Vec2::new(UNIT, UNIT));
    assert_eq!(
        Grid::new(Vec2::new(-px(5), UNIT - 1), angle).effective_spacing(),
        Vec2::new(UNIT, UNIT)
    );
    assert_eq!(
        Grid::new(Vec2::new(UNIT + 1, px(50)), angle).effective_spacing(),
        Vec2::new(UNIT + 1, px(50))
    );
    assert_eq!(
        Grid::new(Vec2::new(i64::MIN, i64::MAX), angle).effective_spacing(),
        Vec2::new(UNIT, i64::MAX)
    );
}

#[test]
fn unrotated_grid_covers_the_viewport_with_multiples_of_the_spacing() {
    let grid = Grid::new(Vec2::new(px(50), px(50)), Angle::zero());
    let v = square_viewport(500);
    assert_eq!(v.graph_rect(), Rect::from_min_max(Pos2::new(px(-250), px(-250)), Pos2::new(px(250), px(250))));
    assert_eq!(grid.pattern_bounds(&v), v.graph_rect());
    let expected: Vec<i64> = (-5..=5).map(|k| px(50 * k)).collect();
    assert_eq!(grid.columns(&v), expected);
    assert_eq!(grid.rows(&v), expected);
}

#[test]
fn unrotated_grid_draws_columns_then_rows() {
    let grid = BackgroundPattern::grid(Vec2::new(px(50), px(50)), Angle::zero());
    let lines = grid.draw(&square_viewport(500));
    assert_eq!(lines.len(), 22);
    for k in 0..11 {
        let at = px(50 * k as i64);
        assert_eq!(lines[k], segment(at, 0, at, px(500)));
        assert_eq!(lines[11 + k], segment(0, at, px(500), at));
    }
}

#[test]
fn zero_spacing_draws_as_unit_spacing() {
    let v = square_viewport(4);
    let zero = Grid::new(Vec2::new(0, 0), Angle::zero());
    let unit = Grid::new(Vec2::new(UNIT, UNIT), Angle::zero());
    let lines = zero.draw(&v);
    assert_eq!(lines, unit.draw(&v));
    assert_eq!(lines.len(), 10);
    assert_eq!(lines[0], segment(0, 0, 0, px(4)));
    assert_eq!(lines[4], segment(px(4), 0, px(4), px(4)));
    assert_eq!(lines[5], segment(0, 0, px(4), 0));
    assert_eq!(lines[9], segment(0, px(4), px(4), px(4)));
    let negative = Grid::new(Vec2::new(px(-50), px(-50)), Angle::zero());
    assert_eq!(negative.draw(&v), lines);
    let oblique_zero = Grid::new(Vec2::new(0, 0), Grid::default().angle);
    let oblique_unit = Grid::new(Vec2::new(UNIT, UNIT), Grid::default().angle);
    assert_eq!(oblique_zero.draw(&v), oblique_unit.draw(&v));
}

#[test]
fn viewport_between_two_lines_draws_nothing() {
    let grid = Grid::new(Vec2::new(px(50), px(50)), Angle::zero());
    let v = Viewport {
        rect: Rect::from_min_max(Pos2::new(0, 0), Pos2::new(px(10), px(10))),
        scale: UNIT,
        offset: Vec2::new(px(-20), px(-20)),
    };
    assert_eq!(
        grid.pattern_bounds(&v),
        Rect::from_min_max(Pos2::new(px(-25), px(-25)), Pos2::new(px(-15), px(-15)))
    );
    assert!(grid.columns(&v).is_empty());
    assert!(grid.rows(&v).is_empty());
    assert!(grid.draw(&v).is_empty());
}

#[test]
fn only_one_axis_may_be_empty() {
    let grid = Grid::new(Vec2::new(px(50), px(5)), Angle::zero());
    let v = Viewport {
        rect: Rect::from_min_max(Pos2::new(0, 0), Pos2::new(px(10), px(10))),
        scale: UNIT,
        offset: Vec2::new(px(-20), px(-20)),
    };
    assert!(grid.columns(&v).is_empty());
    assert_eq!(grid.rows(&v), vec![px(-25), px(-20), px(-15)]);
    let lines = grid.draw(&v);
    assert_eq!(lines.len(), 3);
    assert_eq!(lines[0], segment(0, 0, px(10), 0));
    assert_eq!(lines[1], segment(0, px(5), px(10), px(5)));
    assert_eq!(lines[2], segment(0, px(10), px(10), px(10)));
}

#[test]
fn quarter_turn_keeps_the_number_of_lines() {
    let v = Viewport {
        rect: Rect::from_min_max(Pos2::new(px(-300), px(-300)), Pos2::new(px(300), px(300))),
        scale: 98_304,
        offset: Vec2::new(0, 0),
    };
    let spacing = Vec2::new(px(70), px(70));
    let straight = Grid::new(spacing, Angle::zero()).draw(&v);
    let turned = Grid::new(spacing, Angle::quarter_turn()).draw(&v);
    assert_eq!(straight.len(), 10);
    assert_eq!(turned.len(), 10);
    // Only the orientation differs: the first column is vertical without the
    // turn and horizontal with it.
    assert_eq!(straight[0], segment(-13_762_560, -19_660_800, -13_762_560, 19_660_800));
    assert_eq!(turned[0], segment(19_660_800, -13_762_560, -19_660_800, -13_762_560));
}

#[test]
fn quarter_turn_keeps_the_number_of_lines_off_centre() {
    let sides: [i64; 4] = [1, 37, 500, 501];
    let scales: [i64; 4] = [1_000, 45_875, UNIT, 200_000];
    let offsets: [i64; 3] = [0, 12_345, -7_777_777];
    for side in sides {
        for scale in scales {
            for offset in offsets {
                let v = Viewport {
                    rect: Rect::from_min_max(Pos2::new(px(3), px(-8)), Pos2::new(px(3) + side * 1000, px(-8) + side * 1000)),
                    scale,
                    offset: Vec2::new(offset, offset),
                };
                let spacing = Vec2::new(px(3), px(3));
                let straight = Grid::new(spacing, Angle::zero()).draw(&v);
                let turned = Grid::new(spacing, Angle::quarter_turn()).draw(&v);
                assert_eq!(straight.len(), turned.len());
            }
        }
    }
}

#[test]
fn drawing_twice_gives_the_same_lines() {
    let pattern = BackgroundPattern::new();
    let v = wide_viewport();
    let first = pattern.draw(&v);
    let second = pattern.draw(&v);
    assert_eq!(first, second);
    assert!(!first.is_empty());
}

#[test]
fn default_grid_in_a_wide_viewport() {
    let grid = Grid::default();
    let v = wide_viewport();
    assert_eq!(
        v.graph_rect(),
        Rect::from_min_max(
            Pos2::new(-20_289_946, -15_361_639),
            Pos2::new(21_653_094, 16_095_641)
        )
    );
    assert_eq!(
        grid.pattern_bounds(&v),
        Rect::from_min_max(
            Pos2::new(-23_889_084, -26_520_439),
            Pos2::new(25_243_236, 25_769_961)
        )
    );
    assert_eq!(grid.columns(&v).len(), 15);
    assert_eq!(grid.rows(&v).len(), 16);
    let lines = BackgroundPattern::Grid(grid).draw(&v);
    assert_eq!(lines, grid.draw(&v));
    assert_eq!(lines.len(), 31);
    assert_eq!(lines[0], segment(37_766_399, -22_835_956, -17_235_026, 12_479_573));
    assert_eq!(lines[1], segment(39_979_462, -19_389_269, -15_021_963, 15_926_260));
    assert_eq!(lines[15], segment(36_801_887, -23_630_080, 69_984_533, 28_049_533));
    assert_eq!(lines[16], segment(33_355_199, -21_417_017, 66_537_845, 30_262_595));
    assert_eq!(lines[30], segment(-14_898_426, 9_565_858, 18_284_220, 61_245_470));
}

#[test]
fn line_rotates_then_transforms_both_ends() {
    let grid = Grid::new(Vec2::new(px(50), px(50)), Angle::quarter_turn());
    let v = square_viewport(500);
    let l = grid.line(&v, Vec2::new(px(10), px(20)), Vec2::new(px(10), px(-20)));
    assert_eq!(l, segment(px(230), px(260), px(270), px(260)));
}

#[test]
fn drawn_lines_lie_on_the_lattice_in_floating_point() {
    let unit = UNIT as f64;
    let angle = 1.0_f64;
    let grid = Grid::default();
    let v = wide_viewport();
    let scale = v.scale as f64 / unit;
    let (cx, cy) = (400.0_f64, 300.0_f64);
    let (ox, oy) = (13.0_f64, 7.0_f64);
    let columns = grid.columns(&v).len();
    let lines = grid.draw(&v);
    for (k, l) in lines.iter().enumerate() {
        for p in [l.start, l.end] {
            let gx = (p.x as f64 / unit + ox - cx) / scale;
            let gy = (p.y as f64 / unit + oy - cy) / scale;
            let local_x = angle.cos() * gx + angle.sin() * gy;
            let local_y = -angle.sin() * gx + angle.cos() * gy;
            let on_axis = if k < columns { local_x } else { local_y };
            let nearest = (on_axis / 50.0).round() * 50.0;
            assert!((on_axis - nearest).abs() < 0.02);
        }
    }
    // Every lattice line that crosses the visible part of graph space is
    // among them.
    let corners = [(0.0_f64, 0.0_f64), (800.0, 0.0), (0.0, 600.0), (800.0, 600.0)];
    let mut lo = f64::MAX;
    let mut hi = f64::MIN;
    for (sx, sy) in corners {
        let gx = (sx + ox - cx) / scale;
        let gy = (sy + oy - cy) / scale;
        let local_x = angle.cos() * gx + angle.sin() * gy;
        lo = lo.min(local_x);
        hi = hi.max(local_x);
    }
    let first = (lo / 50.0).ceil() as i64;
    let last = (hi / 50.0).floor() as i64;
    let expected: Vec<i64> = (first..=last).map(|k| px(50 * k)).collect();
    assert_eq!(grid.columns(&v), expected);
}

#[test]
fn number_of_lines_is_bounded_by_the_pattern_bounds() {
    let v = wide_viewport();
    for spacing in [0, 1, UNIT, px(7), px(50), px(100_000)] {
        let grid = Grid::new(Vec2::new(spacing, spacing), Grid::default().angle);
        let b = grid.pattern_bounds(&v);
        let bound = (b.max.x - b.min.x) / UNIT + (b.max.y - b.min.y) / UNIT + 2;
        assert!(grid.draw(&v).len() as i64 <= bound);
    }
}
