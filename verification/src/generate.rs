//! The grid drivers: a line, a plane or a cube of noise, with the least and the
//! greatest value that was generated.

use vstd::prelude::*;
use crate::extremes::{best_key, sentinel, Extreme, key};
use crate::node::{compiled, Dimensions};
use crate::noise::Noise;
use crate::pipeline::{row, row_value, stepped, walk_row, Axis, NoisePipeline};
use crate::scalar::{Scalar, ONE, ZERO};
use crate::unit::{dependable, perform, Operation, Point};

verus! {

/// `m` is the extreme of the values, their minimum or, with `up`, their maximum: it is
/// not NaN, it is the best among the sentinel and the values that are not NaN, and it
/// is the sentinel or one of the values. Of two zeros the negative one is the lesser.
pub open spec fn is_extreme(m: Scalar, values: Seq<Scalar>, up: bool) -> bool {
    &&& !m.nan()
    &&& key(m, up) == best_key(values, up)
    &&& (m == sentinel(up) || values.contains(m))
}

/// The value of element `i` of a line that starts at `x`.
pub open spec fn line_value<F: Fn(Operation) -> Scalar>(
    unit: &F,
    noise: Noise,
    x: Scalar,
    lanes: usize,
    i: int,
) -> Scalar {
    row_value(
        unit,
        compiled(noise.settings, Dimensions::X),
        noise.seed,
        Axis::X,
        Point { x: ZERO(), y: ZERO(), z: ZERO() },
        x,
        lanes,
        i,
    )
}

/// The value of the element of a plane at step `xi` along the first axis and `yi` along
/// the second. The first axis is walked one step of one at a time, the second in lanes.
pub open spec fn plane_value<F: Fn(Operation) -> Scalar>(
    unit: &F,
    noise: Noise,
    x: Scalar,
    y: Scalar,
    lanes: usize,
    xi: int,
    yi: int,
) -> Scalar {
    row_value(
        unit,
        compiled(noise.settings, Dimensions::XY),
        noise.seed,
        Axis::Y,
        Point { x: stepped(unit, x, ONE(), xi as nat), y: ZERO(), z: ZERO() },
        y,
        lanes,
        yi,
    )
}

/// The value of the element of a cube at step `xi` along the first axis, `zi` along the
/// third and `yi` along the second. The first and the third axis are walked one step of
/// one at a time, the second in lanes.
pub open spec fn cube_value<F: Fn(Operation) -> Scalar>(
    unit: &F,
    noise: Noise,
    x: Scalar,
    y: Scalar,
    z: Scalar,
    lanes: usize,
    xi: int,
    zi: int,
    yi: int,
) -> Scalar {
    row_value(
        unit,
        compiled(noise.settings, Dimensions::XYZ),
        noise.seed,
        Axis::Y,
        Point {
            x: stepped(unit, x, ONE(), xi as nat),
            y: ZERO(),
            z: stepped(unit, z, ONE(), zi as nat),
        },
        y,
        lanes,
        yi,
    )
}

/// What a generated line is: `width` values, each the value of its element, with their
/// minimum and maximum.
pub open spec fn is_line<F: Fn(Operation) -> Scalar>(
    unit: &F,
    noise: Noise,
    x: Scalar,
    width: usize,
    lanes: usize,
    values: Seq<Scalar>,
    min: Scalar,
    max: Scalar,
) -> bool {
    &&& values.len() == width
    &&& forall|i: int|
        0 <= i < width ==> #[trigger] values[i] == line_value(unit, noise, x, lanes, i)
    &&& is_extreme(min, values, false)
    &&& is_extreme(max, values, true)
}

/// What a generated plane is: `width * height` values, the element at `(xi, yi)` at
/// index `xi * height + yi`, with their minimum and maximum.
pub open spec fn is_plane<F: Fn(Operation) -> Scalar>(
    unit: &F,
    noise: Noise,
    x: Scalar,
    y: Scalar,
    width: usize,
    height: usize,
    lanes: usize,
    values: Seq<Scalar>,
    min: Scalar,
    max: Scalar,
) -> bool {
    &&& values.len() == width * height
    &&& forall|xi: int, yi: int|
        0 <= xi < width && 0 <= yi < height ==> values[xi * height + yi] == #[trigger] plane_value(
            unit,
            noise,
            x,
            y,
            lanes,
            xi,
            yi,
        )
    &&& is_extreme(min, values, false)
    &&& is_extreme(max, values, true)
}

/// What a generated cube is: `width * height * depth` values, the element at
/// `(xi, zi, yi)` at index `xi * depth * height + zi * height + yi`, with their minimum
/// and maximum.
pub open spec fn is_cube<F: Fn(Operation) -> Scalar>(
    unit: &F,
    noise: Noise,
    x: Scalar,
    y: Scalar,
    z: Scalar,
    width: usize,
    height: usize,
    depth: usize,
    lanes: usize,
    values: Seq<Scalar>,
    min: Scalar,
    max: Scalar,
) -> bool {
    &&& values.len() == width * height * depth
    &&& forall|xi: int, zi: int, yi: int|
        0 <= xi < width && 0 <= zi < depth && 0 <= yi < height ==> values[xi * depth * height + zi
            * height + yi] == #[trigger] cube_value(unit, noise, x, y, z, lanes, xi, zi, yi)
    &&& is_extreme(min, values, false)
    &&& is_extreme(max, values, true)
}

/// Index `row * length + i` lies in row `row`, before the end of any later row.
pub proof fn lemma_row_index(row: int, rows: int, i: int, length: int)
    requires
        0 <= row < rows,
        0 <= i < length,
    ensures
        0 <= row * length + i < rows * length,
        row * length + i < (row + 1) * length,
        (row + 1) * length == row * length + length,
{
    assert(0 <= row * length) by (nonlinear_arith)
        requires
            0 <= row,
            0 <= length,
    ;
    assert((row + 1) * length == row * length + length) by (nonlinear_arith);
    assert((row + 1) * length <= rows * length) by (nonlinear_arith)
        requires
            row + 1 <= rows,
            0 <= length,
    ;
}

/// Generates a line of `width` values that starts at `x`, in blocks of `lanes` values,
/// with the least and the greatest value generated.
pub fn generate_1d<F: Fn(Operation) -> Scalar>(
    noise: &Noise,
    x: Scalar,
    width: usize,
    lanes: usize,
    unit: &F,
) -> (r: (Vec<Scalar>, Scalar, Scalar))
    requires
        dependable(unit),
        noise.well_formed(),
        lanes >= 1,
    ensures
        is_line(unit, *noise, x, width, lanes, r.0@, r.1, r.2),
{
    let mut pipeline = NoisePipeline::build(noise, Dimensions::X, lanes);
    let mut low = Extreme::new(false, lanes);
    let mut high = Extreme::new(true, lanes);
    let mut values: Vec<Scalar> = Vec::new();
    let fixed = Point { x: Scalar::zero(), y: Scalar::zero(), z: Scalar::zero() };
    walk_row(&mut pipeline, Axis::X, fixed, x, width, &mut values, &mut low, &mut high, unit);
    let min = low.finish();
    let max = high.finish();
    proof {
        assert(values@ =~= row(
            unit,
            compiled(noise.settings, Dimensions::X),
            noise.seed,
            Axis::X,
            fixed,
            x,
            lanes,
            width as nat,
        ));
    }
    (values, min, max)
}

/// Generates a plane of `width` by `height` values that starts at `(x, y)`, with the
/// least and the greatest value generated. The value at `(xi, yi)` has index
/// `xi * height + yi`; rows run along the second axis and are walked in blocks of
/// `lanes` values.
pub fn generate_2d<F: Fn(Operation) -> Scalar>(
    noise: &Noise,
    x: Scalar,
    y: Scalar,
    width: usize,
    height: usize,
    lanes: usize,
    unit: &F,
) -> (r: (Vec<Scalar>, Scalar, Scalar))
    requires
        dependable(unit),
        noise.well_formed(),
        lanes >= 1,
    ensures
        is_plane(unit, *noise, x, y, width, height, lanes, r.0@, r.1, r.2),
{
    let mut pipeline = NoisePipeline::build(noise, Dimensions::XY, lanes);
    let mut low = Extreme::new(false, lanes);
    let mut high = Extreme::new(true, lanes);
    let mut values: Vec<Scalar> = Vec::new();
    let mut at: Scalar = x;
    let mut xi: usize = 0;
    assert(0 * height == 0) by (nonlinear_arith);
    while xi < width
        invariant
            dependable(unit),
            lanes >= 1,
            xi <= width,
            pipeline.root == compiled(noise.settings, Dimensions::XY),
            pipeline.lanes == lanes,
            pipeline.rng.seed == noise.seed,
            at == stepped(unit, x, ONE(), xi as nat),
            values.len() == xi * height,
            forall|a: int, b: int|
                0 <= a < xi && 0 <= b < height ==> values[a * height + b] == #[trigger] plane_value(
                    unit,
                    *noise,
                    x,
                    y,
                    lanes,
                    a,
                    b,
                ),
            !low.up,
            high.up,
            low.lanes.len() == lanes,
            high.lanes.len() == lanes,
            low.well_formed(),
            high.well_formed(),
            low.seen@ == values@,
            high.seen@ == values@,
        decreases width - xi,
    {
        let ghost before = values@;
        let fixed = Point { x: at, y: Scalar::zero(), z: Scalar::zero() };
        walk_row(&mut pipeline, Axis::Y, fixed, y, height, &mut values, &mut low, &mut high, unit);
        at = perform(unit, Operation::Add(at, Scalar::one()));
        proof {
            assert((xi + 1) * height == xi * height + height) by (nonlinear_arith);
            assert forall|a: int, b: int| 0 <= a < xi + 1 && 0 <= b < height implies values[a
                * height + b] == #[trigger] plane_value(unit, *noise, x, y, lanes, a, b) by {
                lemma_row_index(a, xi + 1, b, height as int);
                if a < xi {
                    lemma_row_index(a, xi as int, b, height as int);
                    assert(values[a * height + b] == before[a * height + b]);
                } else {
                    assert(values[xi * height + b] == row(
                        unit,
                        pipeline.root,
                        noise.seed,
                        Axis::Y,
                        fixed,
                        y,
                        lanes,
                        height as nat,
                    )[b]);
                }
            }
        }
        xi = xi + 1;
    }
    let min = low.finish();
    let max = high.finish();
    (values, min, max)
}

/// Generates a cube of `width` by `height` by `depth` values that starts at
/// `(x, y, z)`, with the least and the greatest value generated. The value at
/// `(xi, zi, yi)` has index `xi * depth * height + zi * height + yi`; rows run along the
/// second axis and are walked in blocks of `lanes` values.
pub fn generate_3d<F: Fn(Operation) -> Scalar>(
    noise: &Noise,
    x: Scalar,
    y: Scalar,
    z: Scalar,
    width: usize,
    height: usize,
    depth: usize,
    lanes: usize,
    unit: &F,
) -> (r: (Vec<Scalar>, Scalar, Scalar))
    requires
        dependable(unit),
        noise.well_formed(),
        lanes >= 1,
    ensures
        is_cube(unit, *noise, x, y, z, width, height, depth, lanes, r.0@, r.1, r.2),
{
    let mut pipeline = NoisePipeline::build(noise, Dimensions::XYZ, lanes);
    let mut low = Extreme::new(false, lanes);
    let mut high = Extreme::new(true, lanes);
    let mut values: Vec<Scalar> = Vec::new();
    let mut at_x: Scalar = x;
    let mut xi: usize = 0;
    assert((0 * depth) * height == 0) by (nonlinear_arith);
    while xi < width
        invariant
            dependable(unit),
            lanes >= 1,
            xi <= width,
            pipeline.root == compiled(noise.settings, Dimensions::XYZ),
            pipeline.lanes == lanes,
            pipeline.rng.seed == noise.seed,
            at_x == stepped(unit, x, ONE(), xi as nat),
            values.len() == (xi * depth) * height,
            forall|a: int, c: int, b: int|
                0 <= a < xi && 0 <= c < depth && 0 <= b < height ==> values[(a * depth + c) * height
                    + b] == #[trigger] cube_value(unit, *noise, x, y, z, lanes, a, c, b),
            !low.up,
            high.up,
            low.lanes.len() == lanes,
            high.lanes.len() == lanes,
            low.well_formed(),
            high.well_formed(),
            low.seen@ == values@,
            high.seen@ == values@,
        decreases width - xi,
    {
        let mut at_z: Scalar = z;
        let mut zi: usize = 0;
        assert((xi * depth + 0) * height == (xi * depth) * height);
        while zi < depth
            invariant
                dependable(unit),
                lanes >= 1,
                xi < width,
                zi <= depth,
                pipeline.root == compiled(noise.settings, Dimensions::XYZ),
                pipeline.lanes == lanes,
                pipeline.rng.seed == noise.seed,
                at_x == stepped(unit, x, ONE(), xi as nat),
                at_z == stepped(unit, z, ONE(), zi as nat),
                values.len() == (xi * depth + zi) * height,
                forall|a: int, c: int, b: int|
                    0 <= a < xi && 0 <= c < depth && 0 <= b < height ==> values[(a * depth + c)
                        * height + b] == #[trigger] cube_value(
                        unit,
                        *noise,
                        x,
                        y,
                        z,
                        lanes,
                        a,
                        c,
                        b,
                    ),
                forall|c: int, b: int|
                    0 <= c < zi && 0 <= b < height ==> values[(xi * depth + c) * height + b]
                        == #[trigger] cube_value(unit, *noise, x, y, z, lanes, xi as int, c, b),
                !low.up,
                high.up,
                low.lanes.len() == lanes,
                high.lanes.len() == lanes,
                low.well_formed(),
                high.well_formed(),
                low.seen@ == values@,
                high.seen@ == values@,
            decreases depth - zi,
        {
            let ghost before = values@;
            let ghost rows = xi * depth + zi;
            let fixed = Point { x: at_x, y: Scalar::zero(), z: at_z };
            walk_row(
                &mut pipeline,
                Axis::Y,
                fixed,
                y,
                height,
                &mut values,
                &mut low,
                &mut high,
                unit,
            );
            at_z = perform(unit, Operation::Add(at_z, Scalar::one()));
            proof {
                assert((rows + 1) * height == rows * height + height) by (nonlinear_arith);
                assert forall|a: int, c: int, b: int|
                    0 <= a < xi && 0 <= c < depth && 0 <= b < height implies values[(a * depth + c)
                    * height + b] == #[trigger] cube_value(
                    unit,
                    *noise,
                    x,
                    y,
                    z,
                    lanes,
                    a,
                    c,
                    b,
                ) by {
                    lemma_row_index(a, xi as int, c, depth as int);
                    lemma_row_index(a * depth + c, rows, b, height as int);
                    assert(values[(a * depth + c) * height + b] == before[(a * depth + c) * height
                        + b]);
                }
                assert forall|c: int, b: int| 0 <= c < zi + 1 && 0 <= b < height implies values[(xi
                    * depth + c) * height + b] == #[trigger] cube_value(
                    unit,
                    *noise,
                    x,
                    y,
                    z,
                    lanes,
                    xi as int,
                    c,
                    b,
                ) by {
                    if c < zi {
                        lemma_row_index(xi * depth + c, rows, b, height as int);
                        assert(values[(xi * depth + c) * height + b] == before[(xi * depth + c)
                            * height + b]);
                    } else {
                        assert(values[rows * height + b] == row(
                            unit,
                            pipeline.root,
                            noise.seed,
                            Axis::Y,
                            fixed,
                            y,
                            lanes,
                            height as nat,
                        )[b]);
                    }
                }
            }
            zi = zi + 1;
        }
        at_x = perform(unit, Operation::Add(at_x, Scalar::one()));
        proof {
            assert((xi + 1) * depth == xi * depth + depth) by (nonlinear_arith);
            assert(((xi + 1) * depth) * height == (xi * depth + depth) * height);
        }
        xi = xi + 1;
    }
    let min = low.finish();
    let max = high.finish();
    proof {
        assert((width * depth) * height == width * height * depth) by (nonlinear_arith);
        assert forall|a: int, c: int, b: int|
            0 <= a < width && 0 <= c < depth && 0 <= b < height implies values@[a * depth * height
            + c * height + b] == #[trigger] cube_value(unit, *noise, x, y, z, lanes, a, c, b) by {
            assert((a * depth + c) * height == a * depth * height + c * height)
                by (nonlinear_arith);
        }
    }
    (values, min, max)
}

impl Noise {
    /// Generates a line of noise. It also returns the min and max value generated.
    pub fn generate_1d<F: Fn(Operation) -> Scalar>(
        &self,
        x: Scalar,
        width: usize,
        lanes: usize,
        unit: &F,
    ) -> (r: (Vec<Scalar>, Scalar, Scalar))
        requires
            dependable(unit),
            self.well_formed(),
            lanes >= 1,
        ensures
            is_line(unit, *self, x, width, lanes, r.0@, r.1, r.2),
    {
        generate_1d(self, x, width, lanes, unit)
    }

    /// Generates a plane of noise. It also returns the min and max value generated.
    /// The value at `(xi, yi)` has index `xi * height + yi`.
    pub fn generate_2d<F: Fn(Operation) -> Scalar>(
        &self,
        x: Scalar,
        y: Scalar,
        width: usize,
        height: usize,
        lanes: usize,
        unit: &F,
    ) -> (r: (Vec<Scalar>, Scalar, Scalar))
        requires
            dependable(unit),
            self.well_formed(),
            lanes >= 1,
        ensures
            is_plane(unit, *self, x, y, width, height, lanes, r.0@, r.1, r.2),
    {
        generate_2d(self, x, y, width, height, lanes, unit)
    }

    /// Generates a cube of noise. It also returns the min and max value generated.
    /// The value at `(xi, zi, yi)` has index `xi * depth * height + zi * height + yi`.
    pub fn generate_3d<F: Fn(Operation) -> Scalar>(
        &self,
        x: Scalar,
        y: Scalar,
        z: Scalar,
        width: usize,
        height: usize,
        depth: usize,
        lanes: usize,
        unit: &F,
    ) -> (r: (Vec<Scalar>, Scalar, Scalar))
        requires
            dependable(unit),
            self.well_formed(),
            lanes >= 1,
        ensures
            is_cube(unit, *self, x, y, z, width, height, depth, lanes, r.0@, r.1, r.2),
    {
        generate_3d(self, x, y, z, width, height, depth, lanes, unit)
    }
}

} // verus!
