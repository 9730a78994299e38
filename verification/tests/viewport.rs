use grid_pattern::{Pos2, Rect, Vec2, Viewport, UNIT};

fn px(v: i64) -> i64 {
    v * UNIT
}

fn sample_viewport() -> Viewport {
    Viewport {
        rect: Rect::from_min_max(Pos2::new(0, 0), Pos2::new(px(500), px(500))),
        scale: 2 * UNIT,
        offset: Vec2::new(px(10), px(-20)),
    }
}

fn awkward_viewport() -> Viewport {
    Viewport {
        rect: Rect::from_min_max(Pos2::new(px(10), px(20)), Pos2::new(px(650), px(500))),
        scale: 45_875,
        offset: Vec2::new(px(-33), px(12)),
    }
}

#[test]
fn screen_pos_to_graph_subtracts_center_and_divides() {
    let v = sample_viewport();
    let g = v.screen_pos_to_graph(Pos2::new(px(100), px(100)));
    assert_eq!(g, Pos2::new(px(-70), px(-85)));
}

#[test]
fn graph_pos_to_screen_multiplies_and_adds_center() {
    let v = sample_viewport();
    let s = v.graph_pos_to_screen(Pos2::new(px(-70), px(-85)));
    assert_eq!(s, Pos2::new(px(100), px(100)));
}

#[test]
fn center_of_rect_maps_to_offset_over_scale() {
    let v = sample_viewport();
    let g = v.screen_pos_to_graph(Pos2::new(px(250), px(250)));
    assert_eq!(g, Pos2::new(px(5), px(-10)));
}

#[test]
fn graph_origin_maps_to_center_minus_offset() {
    let v = sample_viewport();
    let s = v.graph_pos_to_screen(Pos2::new(0, 0));
    assert_eq!(s, Pos2::new(px(240), px(270)));
}

#[test]
fn vectors_are_scaled_and_not_translated() {
    let v = sample_viewport();
    assert_eq!(v.graph_vec_to_screen(Vec2::new(px(3), px(4))), Vec2::new(px(6), px(8)));
    assert_eq!(v.screen_vec_to_graph(Vec2::new(px(6), px(8))), Vec2::new(px(3), px(4)));
    assert_eq!(v.graph_vec_to_screen(Vec2::new(0, 0)), Vec2::new(0, 0));
    assert_eq!(v.screen_vec_to_graph(Vec2::new(0, 0)), Vec2::new(0, 0));
    // The same vector as a position lands elsewhere: positions are translated.
    assert_ne!(
        v.graph_pos_to_screen(Pos2::new(px(3), px(4))).to_vec2(),
        v.graph_vec_to_screen(Vec2::new(px(3), px(4)))
    );
}

#[test]
fn vector_transform_ignores_rect_and_offset() {
    let a = sample_viewport();
    let b = Viewport {
        rect: Rect::from_min_max(Pos2::new(px(-7), px(9)), Pos2::new(px(1000), px(40))),
        scale: a.scale,
        offset: Vec2::new(px(123), px(456)),
    };
    let v = Vec2::new(px(17), px(-31));
    assert_eq!(a.graph_vec_to_screen(v), b.graph_vec_to_screen(v));
    assert_eq!(a.screen_vec_to_graph(v), b.screen_vec_to_graph(v));
}

#[test]
fn sizes_are_scaled() {
    let v = Viewport {
        rect: Rect::from_min_max(Pos2::new(0, 0), Pos2::new(px(100), px(100))),
        scale: 98_304,
        offset: Vec2::new(0, 0),
    };
    assert_eq!(v.graph_size_to_screen(px(10)), px(15));
    assert_eq!(v.screen_size_to_graph(px(15)), px(10));
}

#[test]
fn quotients_round_towards_minus_infinity() {
    let v = Viewport {
        rect: Rect::from_min_max(Pos2::new(0, 0), Pos2::new(0, 0)),
        scale: 3 * UNIT,
        offset: Vec2::new(0, 0),
    };
    assert_eq!(v.screen_pos_to_graph(Pos2::new(1, -1)), Pos2::new(0, -1));
    assert_eq!(v.screen_vec_to_graph(Vec2::new(2, -2)), Vec2::new(0, -1));
    assert_eq!(v.screen_size_to_graph(3), 1);
    assert_eq!(v.screen_size_to_graph(-3), -1);
    assert_eq!(v.screen_size_to_graph(-4), -2);
    let half = Viewport { rect: v.rect, scale: UNIT / 2, offset: v.offset };
    assert_eq!(half.graph_size_to_screen(1), 0);
    assert_eq!(half.graph_size_to_screen(-1), -1);
    assert_eq!(half.graph_size_to_screen(3), 1);
}

#[test]
fn results_saturate_at_the_ends_of_the_range() {
    let v = Viewport {
        rect: Rect::from_min_max(Pos2::new(0, 0), Pos2::new(0, 0)),
        scale: 1,
        offset: Vec2::new(0, 0),
    };
    let far = i64::MAX / 2;
    assert_eq!(v.screen_pos_to_graph(Pos2::new(far, -far)), Pos2::new(i64::MAX, i64::MIN));
    assert_eq!(v.screen_size_to_graph(far), i64::MAX);
    let big = Viewport { rect: v.rect, scale: i64::MAX, offset: v.offset };
    assert_eq!(big.graph_size_to_screen(i64::MAX), i64::MAX);
    assert_eq!(big.graph_size_to_screen(i64::MIN), i64::MIN);
    assert_eq!(big.graph_pos_to_screen(Pos2::new(px(1), px(-1))), Pos2::new(i64::MAX, -i64::MAX));
}

#[test]
fn round_trip_is_exact_at_scale_two() {
    let v = sample_viewport();
    let p = Pos2::new(px(123), px(-45));
    assert_eq!(v.graph_pos_to_screen(v.screen_pos_to_graph(p)), p);
    assert_eq!(v.screen_pos_to_graph(v.graph_pos_to_screen(p)), p);
    let s = Vec2::new(px(8), px(-6));
    assert_eq!(v.graph_vec_to_screen(v.screen_vec_to_graph(s)), s);
    assert_eq!(v.screen_vec_to_graph(v.graph_vec_to_screen(s)), s);
    assert_eq!(v.graph_size_to_screen(v.screen_size_to_graph(px(7))), px(7));
    assert_eq!(v.screen_size_to_graph(v.graph_size_to_screen(px(7))), px(7));
}

#[test]
fn round_trip_of_a_position_stays_within_the_rounding() {
    let v = awkward_viewport();
    let p = Pos2::new(8_090_812, -1_234_567);
    let g = v.screen_pos_to_graph(p);
    assert_eq!(g, Pos2::new(-22_426_893, -24_982_245));
    let back = v.graph_pos_to_screen(g);
    assert_eq!(back, Pos2::new(8_090_811, -1_234_568));
    assert!(back.x <= p.x && (p.x - back.x) * UNIT < v.scale + UNIT);
    assert!(back.y <= p.y && (p.y - back.y) * UNIT < v.scale + UNIT);

    let s = v.graph_pos_to_screen(p);
    assert_eq!(s, Pos2::new(29_453_111, 15_388_734));
    let again = v.screen_pos_to_graph(s);
    assert_eq!(again, Pos2::new(8_090_810, -1_234_569));
    assert!(again.x <= p.x && (p.x - again.x) * v.scale < UNIT + v.scale);
    assert!(again.y <= p.y && (p.y - again.y) * v.scale < UNIT + v.scale);
}

#[test]
fn round_trip_of_vectors_and_sizes_stays_within_the_rounding() {
    let v = awkward_viewport();
    let sizes: [i64; 6] = [0, 1, -1, 8_090_812, -1_234_567, px(4000)];
    for s in sizes {
        let back = v.graph_size_to_screen(v.screen_size_to_graph(s));
        assert!(back <= s && (s - back) * UNIT < v.scale + UNIT);
        let again = v.screen_size_to_graph(v.graph_size_to_screen(s));
        assert!(again <= s && (s - again) * v.scale < UNIT + v.scale);
        let vec = Vec2::new(s, -s);
        let there = v.screen_vec_to_graph(vec);
        assert_eq!(there.x, v.screen_size_to_graph(s));
        assert_eq!(there.y, v.screen_size_to_graph(-s));
        let vback = v.graph_vec_to_screen(there);
        assert!(vback.x <= vec.x && (vec.x - vback.x) * UNIT < v.scale + UNIT);
        assert!(vback.y <= vec.y && (vec.y - vback.y) * UNIT < v.scale + UNIT);
    }
}

#[test]
fn transforms_agree_with_floating_point() {
    let v = awkward_viewport();
    let unit = UNIT as f64;
    let scale = v.scale as f64 / unit;
    let center = (330.0_f64, 260.0_f64);
    let offset = (-33.0_f64, 12.0_f64);
    let points: [(f64, f64); 4] = [(0.0, 0.0), (123.456, -18.84), (-999.5, 2048.25), (650.0, 500.0)];
    for (x, y) in points {
        let p = Pos2::new((x * unit).round() as i64, (y * unit).round() as i64);
        let g = v.screen_pos_to_graph(p);
        let gx = (x + offset.0 - center.0) / scale;
        let gy = (y + offset.1 - center.1) / scale;
        assert!((g.x as f64 / unit - gx).abs() < 1e-3);
        assert!((g.y as f64 / unit - gy).abs() < 1e-3);
        let s = v.graph_pos_to_screen(p);
        let sx = x * scale - offset.0 + center.0;
        let sy = y * scale - offset.1 + center.1;
        assert!((s.x as f64 / unit - sx).abs() < 1e-3);
        assert!((s.y as f64 / unit - sy).abs() < 1e-3);
    }
}

#[test]
fn zooming_in_shrinks_the_graph_extent_of_a_screen_extent() {
    let rect = Rect::from_min_max(Pos2::new(0, 0), Pos2::new(px(500), px(300)));
    let size = Vec2::new(px(500), px(300));
    let scales: [i64; 6] = [1, 16_384, 45_875, UNIT, 98_304, 4 * UNIT];
    let mut last_area = i128::MAX;
    for scale in scales {
        let v = Viewport { rect, scale, offset: Vec2::new(0, 0) };
        let g = v.screen_vec_to_graph(size);
        let area = g.x as i128 * g.y as i128;
        assert!(area < last_area);
        last_area = area;
    }
    let one = Viewport { rect, scale: UNIT, offset: Vec2::new(0, 0) };
    let four = Viewport { rect, scale: 4 * UNIT, offset: Vec2::new(0, 0) };
    assert_eq!(one.screen_vec_to_graph(size), Vec2::new(px(500), px(300)));
    assert_eq!(four.screen_vec_to_graph(size), Vec2::new(px(125), px(75)));
}

#[test]
fn zooming_in_cannot_shrink_an_extent_below_the_rounding() {
    let rect = Rect::from_min_max(Pos2::new(0, 0), Pos2::new(1, 1));
    let two = Viewport { rect, scale: 2 * UNIT, offset: Vec2::new(0, 0) };
    let three = Viewport { rect, scale: 3 * UNIT, offset: Vec2::new(0, 0) };
    assert_eq!(two.screen_vec_to_graph(Vec2::new(1, 1)), Vec2::new(0, 0));
    assert_eq!(three.screen_vec_to_graph(Vec2::new(1, 1)), Vec2::new(0, 0));
}

#[test]
fn graph_rect_joins_the_images_of_the_corners() {
    let v = sample_viewport();
    let r = v.graph_rect();
    assert_eq!(r.min, v.screen_pos_to_graph(v.rect.min));
    assert_eq!(r.max, v.screen_pos_to_graph(v.rect.max));
    assert_eq!(r, Rect::from_min_max(Pos2::new(px(-120), px(-135)), Pos2::new(px(130), px(115))));
}

#[test]
fn viewport_is_valid_only_with_a_positive_scale() {
    let mut v = sample_viewport();
    assert!(v.is_valid());
    v.scale = 1;
    assert!(v.is_valid());
    v.scale = 0;
    assert!(!v.is_valid());
    v.scale = -UNIT;
    assert!(!v.is_valid());
}
