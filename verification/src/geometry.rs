//! Points, vectors, rectangles and rotations over fixed-point coordinates.

use crate::fixed::{floor_div, lemma_div_monotone, mul_wide, saturate, saturating_narrow, UNIT};
use vstd::prelude::*;

verus! {

/// A displacement in the plane.
#[derive(Clone, Copy, Debug, PartialEq, Eq, Structural)]
pub struct Vec2 {
    pub x: i64,
    pub y: i64,
}

/// A position in the plane.
#[derive(Clone, Copy, Debug, PartialEq, Eq, Structural)]
pub struct Pos2 {
    pub x: i64,
    pub y: i64,
}

/// An axis-aligned rectangle, given by two opposite corners.
#[derive(Clone, Copy, Debug, PartialEq, Eq, Structural)]
pub struct Rect {
    pub min: Pos2,
    pub max: Pos2,
}

/// A rotation, held as the cosine and the sine of its angle in fixed point.
///
/// `(cos, sin)` is where the x axis ends up: a quarter turn takes the x axis
/// to the y axis.
#[derive(Clone, Copy, Debug, PartialEq, Eq, Structural)]
pub struct Angle {
    pub cos: i64,
    pub sin: i64,
}

/// The smaller of two integers.
pub open spec fn min_int(a: int, b: int) -> int {
    if a <= b {
        a
    } else {
        b
    }
}

/// The larger of two integers.
pub open spec fn max_int(a: int, b: int) -> int {
    if a >= b {
        a
    } else {
        b
    }
}

impl Vec2 {
    /// The vector with the given components.
    pub fn new(x: i64, y: i64) -> (v: Vec2)
        ensures
            v == (Vec2 { x, y }),
    {
        Vec2 { x, y }
    }

    /// The position that this vector leads to from the origin.
    pub open spec fn spec_to_pos2(self) -> Pos2 {
        Pos2 { x: self.x, y: self.y }
    }

    /// Reads the vector as a position.
    #[verifier::when_used_as_spec(spec_to_pos2)]
    pub fn to_pos2(self) -> (p: Pos2)
        ensures
            p == self.spec_to_pos2(),
    {
        Pos2 { x: self.x, y: self.y }
    }

    /// The componentwise minimum.
    pub open spec fn spec_min(self, other: Vec2) -> Vec2 {
        Vec2 {
            x: min_int(self.x as int, other.x as int) as i64,
            y: min_int(self.y as int, other.y as int) as i64,
        }
    }

    /// The componentwise maximum.
    pub open spec fn spec_max(self, other: Vec2) -> Vec2 {
        Vec2 {
            x: max_int(self.x as int, other.x as int) as i64,
            y: max_int(self.y as int, other.y as int) as i64,
        }
    }

    /// Takes the smaller component on each axis.
    #[verifier::when_used_as_spec(spec_min)]
    pub fn min(self, other: Vec2) -> (v: Vec2)
        ensures
            v == self.spec_min(other),
    {
        Vec2 {
            x: if self.x <= other.x { self.x } else { other.x },
            y: if self.y <= other.y { self.y } else { other.y },
        }
    }

    /// Takes the larger component on each axis.
    #[verifier::when_used_as_spec(spec_max)]
    pub fn max(self, other: Vec2) -> (v: Vec2)
        ensures
            v == self.spec_max(other),
    {
        Vec2 {
            x: if self.x >= other.x { self.x } else { other.x },
            y: if self.y >= other.y { self.y } else { other.y },
        }
    }
}

impl Pos2 {
    /// The position with the given coordinates.
    pub fn new(x: i64, y: i64) -> (p: Pos2)
        ensures
            p == (Pos2 { x, y }),
    {
        Pos2 { x, y }
    }

    /// The vector from the origin to this position.
    pub open spec fn spec_to_vec2(self) -> Vec2 {
        Vec2 { x: self.x, y: self.y }
    }

    /// Reads the position as a vector.
    #[verifier::when_used_as_spec(spec_to_vec2)]
    pub fn to_vec2(self) -> (v: Vec2)
        ensures
            v == self.spec_to_vec2(),
    {
        Vec2 { x: self.x, y: self.y }
    }
}

/// The midpoint of `a` and `b`, rounded towards minus infinity.
pub open spec fn midpoint(a: int, b: int) -> int {
    (a + b) / 2
}

impl Rect {
    /// The rectangle between two corners, which are kept as they are given.
    pub fn from_min_max(min: Pos2, max: Pos2) -> (r: Rect)
        ensures
            r == (Rect { min, max }),
    {
        Rect { min, max }
    }

    /// The geometric centre.
    pub open spec fn spec_center(self) -> Pos2 {
        Pos2 {
            x: midpoint(self.min.x as int, self.max.x as int) as i64,
            y: midpoint(self.min.y as int, self.max.y as int) as i64,
        }
    }

    /// The point halfway between the two corners, rounded towards minus
    /// infinity on each axis.
    #[verifier::when_used_as_spec(spec_center)]
    pub fn center(self) -> (c: Pos2)
        ensures
            c == self.spec_center(),
    {
        let x: i128 = floor_div(self.min.x as i128 + self.max.x as i128, 2);
        let y: i128 = floor_div(self.min.y as i128 + self.max.y as i128, 2);
        Pos2 { x: x as i64, y: y as i64 }
    }

    /// The bounding box of the four corners after each was rotated by `rot`.
    pub open spec fn spec_rotate_bb(self, rot: Angle) -> Rect {
        let a = rot.spec_rotate(Vec2 { x: self.min.x, y: self.min.y });
        let b = rot.spec_rotate(Vec2 { x: self.max.x, y: self.min.y });
        let c = rot.spec_rotate(Vec2 { x: self.min.x, y: self.max.y });
        let d = rot.spec_rotate(Vec2 { x: self.max.x, y: self.max.y });
        Rect {
            min: a.spec_min(b).spec_min(c).spec_min(d).spec_to_pos2(),
            max: a.spec_max(b).spec_max(c).spec_max(d).spec_to_pos2(),
        }
    }

    /// Rotates the rectangle about the origin and returns the axis-aligned box
    /// around the result, which is in general larger than the rectangle.
    #[verifier::when_used_as_spec(spec_rotate_bb)]
    pub fn rotate_bb(self, rot: Angle) -> (r: Rect)
        requires
            rot.wf(),
        ensures
            r == self.spec_rotate_bb(rot),
            r.min.x <= r.max.x,
            r.min.y <= r.max.y,
    {
        let a = rot.rotate(Vec2 { x: self.min.x, y: self.min.y });
        let b = rot.rotate(Vec2 { x: self.max.x, y: self.min.y });
        let c = rot.rotate(Vec2 { x: self.min.x, y: self.max.y });
        let d = rot.rotate(Vec2 { x: self.max.x, y: self.max.y });
        let lo = a.min(b).min(c).min(d);
        let hi = a.max(b).max(c).max(d);
        Rect { min: lo.to_pos2(), max: hi.to_pos2() }
    }
}

impl Angle {
    /// Neither component exceeds one in magnitude.
    pub open spec fn wf(self) -> bool {
        &&& -UNIT <= self.cos <= UNIT
        &&& -UNIT <= self.sin <= UNIT
    }

    /// Whether the value is well formed.
    pub fn is_valid(&self) -> (ok: bool)
        ensures
            ok == self.wf(),
    {
        -UNIT <= self.cos && self.cos <= UNIT && -UNIT <= self.sin && self.sin <= UNIT
    }

    /// The rotation by no angle at all.
    pub fn zero() -> (a: Angle)
        ensures
            a == (Angle { cos: UNIT, sin: 0 }),
            a.wf(),
    {
        Angle { cos: UNIT, sin: 0 }
    }

    /// The rotation that takes the x axis to the y axis.
    pub fn quarter_turn() -> (a: Angle)
        ensures
            a == (Angle { cos: 0, sin: UNIT }),
            a.wf(),
    {
        Angle { cos: 0, sin: UNIT }
    }

    /// The rotation by the opposite angle.
    pub open spec fn spec_inverse(self) -> Angle {
        Angle { cos: self.cos, sin: (-self.sin) as i64 }
    }

    /// Negates the sine, which turns the rotation round.
    #[verifier::when_used_as_spec(spec_inverse)]
    pub fn inverse(self) -> (a: Angle)
        requires
            self.wf(),
        ensures
            a == self.spec_inverse(),
            a.wf(),
    {
        Angle { cos: self.cos, sin: -self.sin }
    }

    /// `(cos * x - sin * y, sin * x + cos * y)`, each rounded towards minus
    /// infinity and saturated.
    pub open spec fn spec_rotate(self, v: Vec2) -> Vec2 {
        Vec2 {
            x: saturate((self.cos * v.x - self.sin * v.y) / (UNIT as int)) as i64,
            y: saturate((self.sin * v.x + self.cos * v.y) / (UNIT as int)) as i64,
        }
    }

    /// Rotates `v` about the origin.
    #[verifier::when_used_as_spec(spec_rotate)]
    pub fn rotate(self, v: Vec2) -> (r: Vec2)
        requires
            self.wf(),
        ensures
            r == self.spec_rotate(v),
    {
        let cx: i128 = mul_wide(self.cos, v.x);
        let sy: i128 = mul_wide(self.sin, v.y);
        let sx: i128 = mul_wide(self.sin, v.x);
        let cy: i128 = mul_wide(self.cos, v.y);
        proof {
            lemma_product_bound(self.cos as int, v.x as int);
            lemma_product_bound(self.sin as int, v.y as int);
            lemma_product_bound(self.sin as int, v.x as int);
            lemma_product_bound(self.cos as int, v.y as int);
        }
        let x: i128 = floor_div(cx - sy, UNIT as i128);
        let y: i128 = floor_div(sx + cy, UNIT as i128);
        Vec2 { x: saturating_narrow(x), y: saturating_narrow(y) }
    }
}

/// The rotation by no angle leaves every vector where it is.
pub proof fn lemma_rotate_by_zero(v: Vec2)
    ensures
        (Angle { cos: UNIT, sin: 0 }).spec_rotate(v) == v,
        (Angle { cos: UNIT, sin: 0 }).spec_inverse() == (Angle { cos: UNIT, sin: 0 }),
{
    let x = v.x as int;
    let y = v.y as int;
    assert((UNIT * x - 0 * y) / (UNIT as int) == x) by (nonlinear_arith)
        requires
            UNIT == 65536,
    ;
    assert((0 * x + UNIT * y) / (UNIT as int) == y) by (nonlinear_arith)
        requires
            UNIT == 65536,
    ;
}

/// A quarter turn takes `(x, y)` to `(-y, x)`, and its inverse takes it to
/// `(y, -x)`; the negation saturates at the upper end of the range.
pub proof fn lemma_rotate_by_quarter_turn(v: Vec2)
    ensures
        (Angle { cos: 0, sin: UNIT }).spec_rotate(v) == (Vec2 {
            x: saturate(-v.y) as i64,
            y: v.x,
        }),
        (Angle { cos: 0, sin: UNIT }).spec_inverse().spec_rotate(v) == (Vec2 {
            x: v.y,
            y: saturate(-v.x) as i64,
        }),
{
    let x = v.x as int;
    let y = v.y as int;
    assert((0 * x - UNIT * y) / (UNIT as int) == -y) by (nonlinear_arith)
        requires
            UNIT == 65536,
    ;
    assert((UNIT * x + 0 * y) / (UNIT as int) == x) by (nonlinear_arith)
        requires
            UNIT == 65536,
    ;
    assert((0 * x - (-UNIT) * y) / (UNIT as int) == y) by (nonlinear_arith)
        requires
            UNIT == 65536,
    ;
    assert(((-UNIT) * x + 0 * y) / (UNIT as int) == -x) by (nonlinear_arith)
        requires
            UNIT == 65536,
    ;
}

/// A multiple of a value between two bounds lies between the multiples of
/// the bounds.
proof fn lemma_multiple_between(a: int, lo: int, v: int, hi: int)
    requires
        lo <= v <= hi,
    ensures
        min_int(a * lo, a * hi) <= a * v <= max_int(a * lo, a * hi),
{
    assert(min_int(a * lo, a * hi) <= a * v <= max_int(a * lo, a * hi)) by (nonlinear_arith)
        requires
            lo <= v <= hi,
    ;
}

/// The box around a rotated rectangle holds the image of every point of the
/// rectangle, rounding and saturation included.
pub proof fn lemma_rotate_bb_holds_points(rect: Rect, rot: Angle, p: Vec2)
    requires
        rect.min.x <= p.x <= rect.max.x,
        rect.min.y <= p.y <= rect.max.y,
    ensures
        rect.spec_rotate_bb(rot).min.x <= rot.spec_rotate(p).x <= rect.spec_rotate_bb(rot).max.x,
        rect.spec_rotate_bb(rot).min.y <= rot.spec_rotate(p).y <= rect.spec_rotate_bb(rot).max.y,
{
    let c = rot.cos as int;
    let s = rot.sin as int;
    let x0 = rect.min.x as int;
    let x1 = rect.max.x as int;
    let y0 = rect.min.y as int;
    let y1 = rect.max.y as int;
    let px = p.x as int;
    let py = p.y as int;
    lemma_multiple_between(c, x0, px, x1);
    lemma_multiple_between(s, y0, py, y1);
    lemma_multiple_between(s, x0, px, x1);
    lemma_multiple_between(c, y0, py, y1);
    let u = UNIT as int;
    // first component: c * x - s * y
    let f = c * px - s * py;
    lemma_between_corners(f, c * x0 - s * y0, c * x1 - s * y0, c * x0 - s * y1, c * x1 - s * y1, u);
    // second component: s * x + c * y
    let g = s * px + c * py;
    lemma_between_corners(g, s * x0 + c * y0, s * x1 + c * y0, s * x0 + c * y1, s * x1 + c * y1, u);
}

/// A value between the least and the greatest of four others stays so after
/// division and saturation.
proof fn lemma_between_corners(v: int, a: int, b: int, c: int, d: int, u: int)
    requires
        u > 0,
        a <= v || b <= v || c <= v || d <= v,
        v <= a || v <= b || v <= c || v <= d,
    ensures
        min_int(
            min_int(min_int(saturate(a / u), saturate(b / u)), saturate(c / u)),
            saturate(d / u),
        ) <= saturate(v / u) <= max_int(
            max_int(max_int(saturate(a / u), saturate(b / u)), saturate(c / u)),
            saturate(d / u),
        ),
{
    if a <= v {
        lemma_div_monotone(a, v, u);
    }
    if b <= v {
        lemma_div_monotone(b, v, u);
    }
    if c <= v {
        lemma_div_monotone(c, v, u);
    }
    if d <= v {
        lemma_div_monotone(d, v, u);
    }
    if v <= a {
        lemma_div_monotone(v, a, u);
    }
    if v <= b {
        lemma_div_monotone(v, b, u);
    }
    if v <= c {
        lemma_div_monotone(v, c, u);
    }
    if v <= d {
        lemma_div_monotone(v, d, u);
    }
}

/// A 64-bit value times a factor of magnitude at most one stays within 80 bits.
proof fn lemma_product_bound(c: int, v: int)
    requires
        -UNIT <= c <= UNIT,
        i64::MIN <= v <= i64::MAX,
    ensures
        -0x8000_0000_0000_0000_0000 <= c * v <= 0x8000_0000_0000_0000_0000,
{
    assert(-0x8000_0000_0000_0000_0000 <= c * v <= 0x8000_0000_0000_0000_0000)
        by (nonlinear_arith)
        requires
            -65536 <= c <= 65536,
            -0x8000_0000_0000_0000 <= v <= 0x7fff_ffff_ffff_ffff,
    ;
}

} // verus!
