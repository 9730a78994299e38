//! The lines of a one-dimensional lattice that fall into an interval.
//!
//! A lattice of spacing `s` has one line at every integer multiple of `s`.

use crate::fixed::{ceil_div, div_ceil, floor_div, lemma_div_between};
use vstd::arithmetic::div_mod::lemma_fundamental_div_mod;
use vstd::arithmetic::div_mod::lemma_fundamental_div_mod_converse;
use vstd::prelude::*;

verus! {

/// The index of the first line at or after `lo`.
pub open spec fn first_index(lo: int, spacing: int) -> int {
    div_ceil(lo, spacing)
}

/// The index of the last line at or before `hi`.
pub open spec fn last_index(hi: int, spacing: int) -> int {
    hi / spacing
}

/// The number of lines in the closed interval from `lo` to `hi`; zero where
/// the interval lies between two lines or is empty.
pub open spec fn line_count(lo: int, hi: int, spacing: int) -> nat {
    let n = last_index(hi, spacing) - first_index(lo, spacing) + 1;
    if n > 0 {
        n as nat
    } else {
        0
    }
}

/// The coordinates of the lines from `lo` to `hi`, in rising order.
pub open spec fn spec_line_coordinates(lo: i64, hi: i64, spacing: i64) -> Seq<i64> {
    Seq::new(
        line_count(lo as int, hi as int, spacing as int),
        |k: int| ((first_index(lo as int, spacing as int) + k) * spacing) as i64,
    )
}

/// `x` is the coordinate of a lattice line.
pub open spec fn on_lattice(x: int, spacing: int) -> bool {
    x % spacing == 0
}

/// The first line is the least multiple of the spacing that is not below
/// `lo`, the last line the greatest that is not above `hi`.
pub proof fn lemma_index_bounds(lo: int, hi: int, spacing: int)
    requires
        spacing > 0,
    ensures
        (first_index(lo, spacing) - 1) * spacing < lo <= first_index(lo, spacing) * spacing,
        last_index(hi, spacing) * spacing <= hi < (last_index(hi, spacing) + 1) * spacing,
{
    lemma_fundamental_div_mod(-lo, spacing);
    lemma_fundamental_div_mod(hi, spacing);
    let f = first_index(lo, spacing);
    let l = last_index(hi, spacing);
    let rl = (-lo) % spacing;
    let rh = hi % spacing;
    assert((f - 1) * spacing < lo <= f * spacing) by (nonlinear_arith)
        requires
            -lo == spacing * (-f) + rl,
            0 <= rl < spacing,
    ;
    assert(l * spacing <= hi < (l + 1) * spacing) by (nonlinear_arith)
        requires
            hi == spacing * l + rh,
            0 <= rh < spacing,
    ;
}

/// A line index between the first and the last has its coordinate between
/// `lo` and `hi`.
pub proof fn lemma_line_in_interval(lo: int, hi: int, spacing: int, i: int)
    requires
        spacing > 0,
        first_index(lo, spacing) <= i <= last_index(hi, spacing),
    ensures
        lo <= i * spacing <= hi,
        on_lattice(i * spacing, spacing),
{
    lemma_index_bounds(lo, hi, spacing);
    let f = first_index(lo, spacing);
    let l = last_index(hi, spacing);
    assert(f * spacing <= i * spacing <= l * spacing) by (nonlinear_arith)
        requires
            f <= i <= l,
            spacing > 0,
    ;
    lemma_fundamental_div_mod_converse(i * spacing, spacing, i, 0);
}

/// A multiple of the spacing between `lo` and `hi` is the coordinate of a
/// line whose index lies between the first and the last.
pub proof fn lemma_multiple_is_line(lo: int, hi: int, spacing: int, x: int)
    requires
        spacing > 0,
        lo <= x <= hi,
        on_lattice(x, spacing),
    ensures
        first_index(lo, spacing) <= x / spacing <= last_index(hi, spacing),
        (x / spacing) * spacing == x,
{
    lemma_index_bounds(lo, hi, spacing);
    lemma_fundamental_div_mod(x, spacing);
    let f = first_index(lo, spacing);
    let l = last_index(hi, spacing);
    let i = x / spacing;
    assert(i * spacing == x) by (nonlinear_arith)
        requires
            x == spacing * i + 0,
    ;
    assert(f <= i <= l) by (nonlinear_arith)
        requires
            (f - 1) * spacing < lo,
            hi < (l + 1) * spacing,
            lo <= i * spacing <= hi,
            spacing > 0,
    ;
}

/// The enumerated coordinates rise strictly, and they are exactly the
/// multiples of the spacing from `lo` to `hi`: none is left out, none comes
/// twice, none lies outside.
pub proof fn lemma_line_coordinates_exact(lo: i64, hi: i64, spacing: i64)
    requires
        spacing > 0,
    ensures
        forall|i: int, j: int|
            0 <= i < j < spec_line_coordinates(lo, hi, spacing).len() ==> spec_line_coordinates(
                lo,
                hi,
                spacing,
            )[i] < spec_line_coordinates(lo, hi, spacing)[j],
        forall|x: i64|
            #[trigger] spec_line_coordinates(lo, hi, spacing).contains(x) <==> (lo <= x <= hi
                && on_lattice(x as int, spacing as int)),
{
    let xs = spec_line_coordinates(lo, hi, spacing);
    let f = first_index(lo as int, spacing as int);
    let l = last_index(hi as int, spacing as int);
    assert forall|k: int| 0 <= k < xs.len() implies lo <= #[trigger] xs[k] <= hi && xs[k] == (f
        + k) * spacing && on_lattice(xs[k] as int, spacing as int) by {
        lemma_line_in_interval(lo as int, hi as int, spacing as int, f + k);
    }
    assert forall|i: int, j: int| 0 <= i < j < xs.len() implies xs[i] < xs[j] by {
        assert((f + i) * spacing < (f + j) * spacing) by (nonlinear_arith)
            requires
                i < j,
                spacing > 0,
        ;
    }
    assert forall|x: i64|
        lo <= x <= hi && on_lattice(x as int, spacing as int) implies xs.contains(x) by {
        lemma_multiple_is_line(lo as int, hi as int, spacing as int, x as int);
        let k = x / spacing - f;
        assert(0 <= k < xs.len());
        assert(xs[k] == x);
    }
    assert forall|x: i64| xs.contains(x) implies lo <= x <= hi && on_lattice(
        x as int,
        spacing as int,
    ) by {
        let k = choose|k: int| 0 <= k < xs.len() && xs[k] == x;
        assert(lo <= xs[k] <= hi);
    }
}

/// Mirroring the interval at the origin keeps the number of lines in it.
pub proof fn lemma_line_count_mirrored(lo: int, hi: int, spacing: int)
    requires
        spacing > 0,
    ensures
        line_count(-hi, -lo, spacing) == line_count(lo, hi, spacing),
{
    assert(-(-hi) == hi);
}

/// An interval holds at most one line more than its length holds spacings.
pub proof fn lemma_line_count_bounded(lo: int, hi: int, spacing: int, least: int)
    requires
        0 < least <= spacing,
        lo <= hi,
    ensures
        line_count(lo, hi, spacing) <= (hi - lo) / least + 1,
{
    lemma_index_bounds(lo, hi, spacing);
    let f = first_index(lo, spacing);
    let l = last_index(hi, spacing);
    lemma_div_between(hi - lo, least);
    if l >= f {
        assert((l - f) * least <= hi - lo) by (nonlinear_arith)
            requires
                lo <= f * spacing,
                l * spacing <= hi,
                l >= f,
                0 < least <= spacing,
        ;
        lemma_fundamental_div_mod(hi - lo, least);
        let q = (hi - lo) / least;
        let r = (hi - lo) % least;
        assert(l - f <= q) by (nonlinear_arith)
            requires
                (l - f) * least <= hi - lo,
                hi - lo == least * q + r,
                0 <= r < least,
        ;
    }
}

/// Lists the coordinates of the lattice lines from `lo` to `hi`.
pub fn line_coordinates(lo: i64, hi: i64, spacing: i64) -> (xs: Vec<i64>)
    requires
        spacing > 0,
    ensures
        xs@ == spec_line_coordinates(lo, hi, spacing),
        forall|i: int, j: int| 0 <= i < j < xs@.len() ==> xs@[i] < xs@[j],
        forall|x: i64|
            #[trigger] xs@.contains(x) <==> (lo <= x <= hi && on_lattice(
                x as int,
                spacing as int,
            )),
{
    let first: i64 = ceil_div(lo, spacing);
    proof {
        lemma_div_between(hi as int, spacing as int);
    }
    let last: i64 = floor_div(hi as i128, spacing as i128) as i64;
    let mut xs: Vec<i64> = Vec::new();
    let mut i: i128 = first as i128;
    while i <= last as i128
        invariant
            spacing > 0,
            first == first_index(lo as int, spacing as int),
            last == last_index(hi as int, spacing as int),
            first <= i,
            i <= last + 1 || i == first,
            xs@.len() == i - first,
            forall|k: int|
                0 <= k < xs@.len() ==> #[trigger] xs@[k] == ((first + k) * spacing) as i64,
        decreases last + 1 - i,
    {
        proof {
            lemma_line_in_interval(lo as int, hi as int, spacing as int, i as int);
        }
        let x: i128 = i * (spacing as i128);
        xs.push(x as i64);
        i = i + 1;
    }
    proof {
        assert(xs@ =~= spec_line_coordinates(lo, hi, spacing));
        lemma_line_coordinates_exact(lo, hi, spacing);
    }
    xs
}

} // verus!
