//! What holds of every generated buffer and of the combinators, whatever the unit.

use vstd::prelude::*;
use crate::dispatch::Dispatcher;
use crate::extremes::{best_key, key, lemma_best_key_attained, lemma_best_key_bound, sentinel};
use crate::generate::{is_cube, is_extreme, is_line, is_plane};
use crate::node::{compiled, value_at, Dimensions};
use crate::noise::{Noise, NoiseSettings};
use crate::scalar::{Scalar, ZERO};
use crate::unit::{Operation, Point};

verus! {

/// The values decide their extreme, bit for bit.
pub proof fn lemma_extreme_unique(first: Scalar, second: Scalar, values: Seq<Scalar>, up: bool)
    requires
        is_extreme(first, values, up),
        is_extreme(second, values, up),
    ensures
        first == second,
{
}

/// Two lines generated from the same noise, start, width and lane width with the same
/// unit are the same, bit for bit: the values, the minimum and the maximum.
pub proof fn lemma_line_deterministic<F: Fn(Operation) -> Scalar>(
    unit: &F,
    noise: Noise,
    x: Scalar,
    width: usize,
    lanes: usize,
    first: (Seq<Scalar>, Scalar, Scalar),
    second: (Seq<Scalar>, Scalar, Scalar),
)
    requires
        is_line(unit, noise, x, width, lanes, first.0, first.1, first.2),
        is_line(unit, noise, x, width, lanes, second.0, second.1, second.2),
    ensures
        first == second,
{
    assert(first.0 =~= second.0);
    lemma_extreme_unique(first.1, second.1, first.0, false);
    lemma_extreme_unique(first.2, second.2, first.0, true);
}

/// Two planes generated from the same noise, origin, extents and lane width with the
/// same unit are the same, bit for bit: the values, the minimum and the maximum.
pub proof fn lemma_plane_deterministic<F: Fn(Operation) -> Scalar>(
    unit: &F,
    noise: Noise,
    x: Scalar,
    y: Scalar,
    width: usize,
    height: usize,
    lanes: usize,
    first: (Seq<Scalar>, Scalar, Scalar),
    second: (Seq<Scalar>, Scalar, Scalar),
)
    requires
        is_plane(unit, noise, x, y, width, height, lanes, first.0, first.1, first.2),
        is_plane(unit, noise, x, y, width, height, lanes, second.0, second.1, second.2),
    ensures
        first == second,
{
    assert forall|i: int| 0 <= i < first.0.len() implies first.0[i] == second.0[i] by {
        lemma_cell(i, width as int, height as int);
        let xi = i / (height as int);
        let yi = i % (height as int);
        assert(first.0[xi * height + yi] == crate::generate::plane_value(
            unit,
            noise,
            x,
            y,
            lanes,
            xi,
            yi,
        ));
    }
    assert(first.0 =~= second.0);
    lemma_extreme_unique(first.1, second.1, first.0, false);
    lemma_extreme_unique(first.2, second.2, first.0, true);
}

/// Two cubes generated from the same noise, origin, extents and lane width with the
/// same unit are the same, bit for bit: the values, the minimum and the maximum.
pub proof fn lemma_cube_deterministic<F: Fn(Operation) -> Scalar>(
    unit: &F,
    noise: Noise,
    x: Scalar,
    y: Scalar,
    z: Scalar,
    width: usize,
    height: usize,
    depth: usize,
    lanes: usize,
    first: (Seq<Scalar>, Scalar, Scalar),
    second: (Seq<Scalar>, Scalar, Scalar),
)
    requires
        is_cube(unit, noise, x, y, z, width, height, depth, lanes, first.0, first.1, first.2),
        is_cube(unit, noise, x, y, z, width, height, depth, lanes, second.0, second.1, second.2),
    ensures
        first == second,
{
    assert(width * height * depth == (width * depth) * height) by (nonlinear_arith);
    assert forall|i: int| 0 <= i < first.0.len() implies first.0[i] == second.0[i] by {
        lemma_cell(i, width * depth, height as int);
        let r = i / (height as int);
        let yi = i % (height as int);
        lemma_cell(r, width as int, depth as int);
        let xi = r / (depth as int);
        let zi = r % (depth as int);
        assert((xi * depth + zi) * height == xi * depth * height + zi * height)
            by (nonlinear_arith);
        assert(first.0[xi * depth * height + zi * height + yi] == crate::generate::cube_value(
            unit,
            noise,
            x,
            y,
            z,
            lanes,
            xi,
            zi,
            yi,
        ));
    }
    assert(first.0 =~= second.0);
    lemma_extreme_unique(first.1, second.1, first.0, false);
    lemma_extreme_unique(first.2, second.2, first.0, true);
}

/// An index below `rows * length` splits into a row below `rows` and a place in it.
pub proof fn lemma_cell(i: int, rows: int, length: int)
    requires
        0 <= i < rows * length,
        0 <= rows,
        0 <= length,
    ensures
        length > 0,
        0 <= i / length < rows,
        0 <= i % length < length,
        i == (i / length) * length + i % length,
{
    assert(length > 0) by (nonlinear_arith)
        requires
            0 <= i < rows * length,
            0 <= rows,
            0 <= length,
    ;
    vstd::arithmetic::div_mod::lemma_fundamental_div_mod(i, length);
    vstd::arithmetic::div_mod::lemma_div_pos_is_pos(i, length);
    vstd::arithmetic::div_mod::lemma_mod_bound(i, length);
    let q = i / length;
    assert(q < rows) by (nonlinear_arith)
        requires
            i == length * q + i % length,
            0 <= i % length,
            i < rows * length,
            length > 0,
    ;
    assert(length * q == q * length) by (nonlinear_arith);
}

/// The tier that runs is decided by the architecture and the features that the hardware
/// has: no two tiers are selected for the same hardware.
pub proof fn lemma_selection_unique(
    dispatcher: Dispatcher,
    architecture: Seq<char>,
    detected: Seq<Seq<char>>,
    first: int,
    second: int,
)
    requires
        dispatcher.is_selected(first, architecture, detected),
        dispatcher.is_selected(second, architecture, detected),
    ensures
        first == second,
{
}

/// The absolute value of a noise is never negative: its sign bit is clear, and where it
/// is not NaN it is at least zero.
pub proof fn lemma_abs_not_negative<F: Fn(Operation) -> Scalar>(
    unit: &F,
    source: NoiseSettings,
    dimensions: Dimensions,
    point: Point,
    hash: i32,
)
    ensures
        ({
            let v = value_at(
                unit,
                compiled(NoiseSettings::Abs { source: Box::new(source) }, dimensions),
                point,
                hash,
            );
            &&& !v.negative()
            &&& !v.nan() ==> ZERO().at_most(v)
        }),
{
}

/// A noise clamped between `min` and `max` lies between them, where `min` is at most
/// `max` and the noise that is clamped is not NaN.
pub proof fn lemma_clamp_in_band<F: Fn(Operation) -> Scalar>(
    unit: &F,
    source: NoiseSettings,
    min: Scalar,
    max: Scalar,
    dimensions: Dimensions,
    point: Point,
    hash: i32,
)
    requires
        min.at_most(max),
        !value_at(unit, compiled(source, dimensions), point, hash).nan(),
    ensures
        ({
            let v = value_at(
                unit,
                compiled(NoiseSettings::Clamp { min, max, source: Box::new(source) }, dimensions),
                point,
                hash,
            );
            min.at_most(v) && v.at_most(max)
        }),
{
}

/// Where the selector of a range is above `high`, and not below `low`, the range has
/// the value of the high noise exactly; where the selector is below `low`, that of the
/// low noise.
pub proof fn lemma_range_plateaus<F: Fn(Operation) -> Scalar>(
    unit: &F,
    selector: NoiseSettings,
    high: Scalar,
    low: Scalar,
    high_noise: NoiseSettings,
    low_noise: NoiseSettings,
    dimensions: Dimensions,
    point: Point,
    hash: i32,
)
    ensures
        ({
            let s = value_at(unit, compiled(selector, dimensions), point, hash);
            let v = value_at(
                unit,
                compiled(
                    NoiseSettings::Range {
                        low,
                        high,
                        selector: Box::new(selector),
                        low_noise: Box::new(low_noise),
                        high_noise: Box::new(high_noise),
                    },
                    dimensions,
                ),
                point,
                hash,
            );
            &&& high.below(s) && !s.below(low) ==> v == value_at(
                unit,
                compiled(high_noise, dimensions),
                point,
                hash,
            )
            &&& s.below(low) ==> v == value_at(unit, compiled(low_noise, dimensions), point, hash)
        }),
{
}

/// The extreme of a buffer that is not empty and holds finite values only is one of its
/// values, and none of them is better.
pub proof fn lemma_extreme_is_true(m: Scalar, values: Seq<Scalar>, up: bool)
    requires
        is_extreme(m, values, up),
        values.len() > 0,
        forall|i: int| 0 <= i < values.len() ==> (#[trigger] values[i]).finite(),
    ensures
        values.contains(m),
        forall|i: int| 0 <= i < values.len() ==> key(m, up) <= key(#[trigger] values[i], up),
{
    lemma_best_key_bound(values, up);
    lemma_best_key_attained(values, up);
    assert(values[0].finite());
    if best_key(values, up) == key(sentinel(up), up) {
        assert(key(values[0], up) <= key(sentinel(up), up));
        assert(values[0] == m);
    } else {
        let i = choose|i: int|
            0 <= i < values.len() && !values[i].nan() && key(#[trigger] values[i], up) == best_key(
                values,
                up,
            );
        assert(values[i] == m);
    }
}

/// The minimum of a buffer that is not empty and holds finite values only is the true
/// minimum: it is one of the values and compares at most equal to each.
pub proof fn lemma_minimum_is_true(min: Scalar, values: Seq<Scalar>)
    requires
        is_extreme(min, values, false),
        values.len() > 0,
        forall|i: int| 0 <= i < values.len() ==> (#[trigger] values[i]).finite(),
    ensures
        values.contains(min),
        forall|i: int| 0 <= i < values.len() ==> min.at_most(#[trigger] values[i]),
{
    lemma_extreme_is_true(min, values, false);
    assert forall|i: int| 0 <= i < values.len() implies min.at_most(#[trigger] values[i]) by {
        assert(values[i].finite());
        assert(key(min, false) <= key(values[i], false));
    }
}

/// The maximum of a buffer that is not empty and holds finite values only is the true
/// maximum: it is one of the values and each compares at most equal to it.
pub proof fn lemma_maximum_is_true(max: Scalar, values: Seq<Scalar>)
    requires
        is_extreme(max, values, true),
        values.len() > 0,
        forall|i: int| 0 <= i < values.len() ==> (#[trigger] values[i]).finite(),
    ensures
        values.contains(max),
        forall|i: int| 0 <= i < values.len() ==> (#[trigger] values[i]).at_most(max),
{
    lemma_extreme_is_true(max, values, true);
    assert forall|i: int| 0 <= i < values.len() implies (#[trigger] values[i]).at_most(max) by {
        assert(values[i].finite());
        assert(key(max, true) <= key(values[i], true));
    }
}

/// The minimum and the maximum of an empty buffer are the sentinels: the largest and
/// the smallest finite value.
pub proof fn lemma_extreme_of_nothing(m: Scalar, up: bool)
    requires
        is_extreme(m, Seq::empty(), up),
    ensures
        m == sentinel(up),
{
}

} // verus!
