//! The compiled form of a noise expression and its evaluation at a point.

use vstd::prelude::*;
use crate::noise::NoiseSettings;
use crate::scalar::{Scalar, HALF, ZERO};
use crate::unit::{
    dependable, difference_of, fused_of, perform, product_of, quotient_of, result_of, sum_of,
    Frequency, Kernel, Operation, Point,
};

verus! {

/// The rank of the grid that is evaluated.
#[derive(Clone, Copy, Debug, PartialEq, Eq, Structural)]
pub enum Dimensions {
    X,
    XY,
    XYZ,
}

/// A node of a compiled expression. The shape is that of the expression; base noise is
/// resolved to the kernel of the rank that the expression was compiled for.
#[derive(Debug)]
pub enum NoiseNode {
    Base { kernel: Kernel, seed: i32, frequency: Frequency },
    Constant { value: Scalar },
    Fbm {
        octaves: u32,
        gain: Scalar,
        lacunarity: Scalar,
        scaled_amplitude: Scalar,
        source: Box<NoiseNode>,
    },
    Abs { source: Box<NoiseNode> },
    Square { source: Box<NoiseNode> },
    AddValue { value: Scalar, source: Box<NoiseNode> },
    MulValue { value: Scalar, source: Box<NoiseNode> },
    Clamp { min: Scalar, max: Scalar, source: Box<NoiseNode> },
    Range {
        low: Scalar,
        high: Scalar,
        selector: Box<NoiseNode>,
        low_noise: Box<NoiseNode>,
        high_noise: Box<NoiseNode>,
    },
    Lerp { selector: Box<NoiseNode>, low_noise: Box<NoiseNode>, high_noise: Box<NoiseNode> },
    AddNoise { left: Box<NoiseNode>, right: Box<NoiseNode> },
    Mul { left: Box<NoiseNode>, right: Box<NoiseNode> },
    Max { left: Box<NoiseNode>, right: Box<NoiseNode> },
    Min { left: Box<NoiseNode>, right: Box<NoiseNode> },
}

/// The kernel that evaluates simplex noise in the given rank.
pub open spec fn simplex_kernel(dimensions: Dimensions) -> Kernel {
    match dimensions {
        Dimensions::X => Kernel::Simplex1d,
        Dimensions::XY => Kernel::Simplex2d,
        Dimensions::XYZ => Kernel::Simplex3d,
    }
}

/// The kernel that evaluates Perlin noise in the given rank. On a line Perlin noise is
/// evaluated by the simplex kernel.
pub open spec fn perlin_kernel(dimensions: Dimensions) -> Kernel {
    match dimensions {
        Dimensions::X => Kernel::Simplex1d,
        Dimensions::XY => Kernel::Perlin2d,
        Dimensions::XYZ => Kernel::Perlin3d,
    }
}

/// The compiled form of an expression for a rank.
pub open spec fn compiled(settings: NoiseSettings, dimensions: Dimensions) -> NoiseNode
    decreases settings,
{
    match settings {
        NoiseSettings::Simplex { seed, frequency } => NoiseNode::Base {
            kernel: simplex_kernel(dimensions),
            seed,
            frequency,
        },
        NoiseSettings::Perlin { seed, frequency } => NoiseNode::Base {
            kernel: perlin_kernel(dimensions),
            seed,
            frequency,
        },
        NoiseSettings::Constant { value } => NoiseNode::Constant { value },
        NoiseSettings::Fbm { octaves, gain, lacunarity, scaled_amplitude, source } => {
            NoiseNode::Fbm {
                octaves,
                gain,
                lacunarity,
                scaled_amplitude,
                source: Box::new(compiled(*source, dimensions)),
            }
        },
        NoiseSettings::Abs { source } => NoiseNode::Abs {
            source: Box::new(compiled(*source, dimensions)),
        },
        NoiseSettings::Square { source } => NoiseNode::Square {
            source: Box::new(compiled(*source, dimensions)),
        },
        NoiseSettings::AddValue { value, source } => NoiseNode::AddValue {
            value,
            source: Box::new(compiled(*source, dimensions)),
        },
        NoiseSettings::MulValue { value, source } => NoiseNode::MulValue {
            value,
            source: Box::new(compiled(*source, dimensions)),
        },
        NoiseSettings::Clamp { min, max, source } => NoiseNode::Clamp {
            min,
            max,
            source: Box::new(compiled(*source, dimensions)),
        },
        NoiseSettings::Range { low, high, selector, low_noise, high_noise } => NoiseNode::Range {
            low,
            high,
            selector: Box::new(compiled(*selector, dimensions)),
            low_noise: Box::new(compiled(*low_noise, dimensions)),
            high_noise: Box::new(compiled(*high_noise, dimensions)),
        },
        NoiseSettings::Lerp { selector, low_noise, high_noise } => NoiseNode::Lerp {
            selector: Box::new(compiled(*selector, dimensions)),
            low_noise: Box::new(compiled(*low_noise, dimensions)),
            high_noise: Box::new(compiled(*high_noise, dimensions)),
        },
        NoiseSettings::AddNoise { left, right } => NoiseNode::AddNoise {
            left: Box::new(compiled(*left, dimensions)),
            right: Box::new(compiled(*right, dimensions)),
        },
        NoiseSettings::Mul { left, right } => NoiseNode::Mul {
            left: Box::new(compiled(*left, dimensions)),
            right: Box::new(compiled(*right, dimensions)),
        },
        NoiseSettings::Max { left, right } => NoiseNode::Max {
            left: Box::new(compiled(*left, dimensions)),
            right: Box::new(compiled(*right, dimensions)),
        },
        NoiseSettings::Min { left, right } => NoiseNode::Min {
            left: Box::new(compiled(*left, dimensions)),
            right: Box::new(compiled(*right, dimensions)),
        },
    }
}

/// Resolves the kernel of simplex noise.
pub fn resolve_simplex(dimensions: Dimensions) -> (r: Kernel)
    ensures
        r == simplex_kernel(dimensions),
{
    match dimensions {
        Dimensions::X => Kernel::Simplex1d,
        Dimensions::XY => Kernel::Simplex2d,
        Dimensions::XYZ => Kernel::Simplex3d,
    }
}

/// Resolves the kernel of Perlin noise.
pub fn resolve_perlin(dimensions: Dimensions) -> (r: Kernel)
    ensures
        r == perlin_kernel(dimensions),
{
    match dimensions {
        Dimensions::X => Kernel::Simplex1d,
        Dimensions::XY => Kernel::Perlin2d,
        Dimensions::XYZ => Kernel::Perlin3d,
    }
}

/// Walks the expression once, depth first, and compiles it for a rank.
pub fn compile(settings: &NoiseSettings, dimensions: Dimensions) -> (r: NoiseNode)
    ensures
        r == compiled(*settings, dimensions),
    decreases *settings,
{
    match settings {
        NoiseSettings::Simplex { seed, frequency } => NoiseNode::Base {
            kernel: resolve_simplex(dimensions),
            seed: *seed,
            frequency: *frequency,
        },
        NoiseSettings::Perlin { seed, frequency } => NoiseNode::Base {
            kernel: resolve_perlin(dimensions),
            seed: *seed,
            frequency: *frequency,
        },
        NoiseSettings::Constant { value } => NoiseNode::Constant { value: *value },
        NoiseSettings::Fbm { octaves, gain, lacunarity, scaled_amplitude, source } => {
            NoiseNode::Fbm {
                octaves: *octaves,
                gain: *gain,
                lacunarity: *lacunarity,
                scaled_amplitude: *scaled_amplitude,
                source: Box::new(compile(source, dimensions)),
            }
        },
        NoiseSettings::Abs { source } => NoiseNode::Abs {
            source: Box::new(compile(source, dimensions)),
        },
        NoiseSettings::Square { source } => NoiseNode::Square {
            source: Box::new(compile(source, dimensions)),
        },
        NoiseSettings::AddValue { value, source } => NoiseNode::AddValue {
            value: *value,
            source: Box::new(compile(source, dimensions)),
        },
        NoiseSettings::MulValue { value, source } => NoiseNode::MulValue {
            value: *value,
            source: Box::new(compile(source, dimensions)),
        },
        NoiseSettings::Clamp { min, max, source } => NoiseNode::Clamp {
            min: *min,
            max: *max,
            source: Box::new(compile(source, dimensions)),
        },
        NoiseSettings::Range { low, high, selector, low_noise, high_noise } => NoiseNode::Range {
            low: *low,
            high: *high,
            selector: Box::new(compile(selector, dimensions)),
            low_noise: Box::new(compile(low_noise, dimensions)),
            high_noise: Box::new(compile(high_noise, dimensions)),
        },
        NoiseSettings::Lerp { selector, low_noise, high_noise } => NoiseNode::Lerp {
            selector: Box::new(compile(selector, dimensions)),
            low_noise: Box::new(compile(low_noise, dimensions)),
            high_noise: Box::new(compile(high_noise, dimensions)),
        },
        NoiseSettings::AddNoise { left, right } => NoiseNode::AddNoise {
            left: Box::new(compile(left, dimensions)),
            right: Box::new(compile(right, dimensions)),
        },
        NoiseSettings::Mul { left, right } => NoiseNode::Mul {
            left: Box::new(compile(left, dimensions)),
            right: Box::new(compile(right, dimensions)),
        },
        NoiseSettings::Max { left, right } => NoiseNode::Max {
            left: Box::new(compile(left, dimensions)),
            right: Box::new(compile(right, dimensions)),
        },
        NoiseSettings::Min { left, right } => NoiseNode::Min {
            left: Box::new(compile(left, dimensions)),
            right: Box::new(compile(right, dimensions)),
        },
    }
}

/// The point with every coordinate multiplied by `factor`.
pub open spec fn scaled_point<F: Fn(Operation) -> Scalar>(
    unit: &F,
    point: Point,
    factor: Scalar,
) -> Point {
    Point {
        x: product_of(unit, point.x, factor),
        y: product_of(unit, point.y, factor),
        z: product_of(unit, point.z, factor),
    }
}

/// The blend of `low` and `high` by a selector between minus one and one: the selector
/// is moved to the span from zero to one and weighs the step from `low` to `high`.
pub open spec fn lerp_value<F: Fn(Operation) -> Scalar>(
    unit: &F,
    selector: Scalar,
    high: Scalar,
    low: Scalar,
) -> Scalar {
    fused_of(unit, difference_of(unit, high, low), fused_of(unit, selector, HALF(), HALF()), low)
}

/// The value of a range node: `low_noise` where the selector is below `low`, else
/// `high_noise` where it is above `high`, else the blend of the two by how far the
/// selector has come from `low` to `high`.
pub open spec fn range_value<F: Fn(Operation) -> Scalar>(
    unit: &F,
    selector: Scalar,
    high_noise: Scalar,
    low_noise: Scalar,
    high: Scalar,
    low: Scalar,
) -> Scalar {
    if selector.below(low) {
        low_noise
    } else if high.below(selector) {
        high_noise
    } else {
        fused_of(
            unit,
            difference_of(unit, high_noise, low_noise),
            quotient_of(unit, difference_of(unit, selector, low), difference_of(unit, high, low)),
            low_noise,
        )
    }
}

/// The value of the node at a point. `hash` is the value drawn from the seeded
/// generator for this evaluation; every sample of base noise receives it.
pub open spec fn value_at<F: Fn(Operation) -> Scalar>(
    unit: &F,
    node: NoiseNode,
    point: Point,
    hash: i32,
) -> Scalar
    decreases node, 0nat,
{
    match node {
        NoiseNode::Base { kernel, seed, frequency } => result_of(
            unit,
            Operation::Sample { kernel, seed, hash, frequency, point },
        ),
        NoiseNode::Constant { value } => value,
        NoiseNode::Fbm { octaves, gain, lacunarity, scaled_amplitude, source } => fbm_sum(
            unit,
            *source,
            gain,
            lacunarity,
            octaves as nat,
            point,
            scaled_amplitude,
            ZERO(),
            hash,
        ),
        NoiseNode::Abs { source } => value_at(unit, *source, point, hash).spec_abs(),
        NoiseNode::Square { source } => product_of(
            unit,
            value_at(unit, *source, point, hash),
            value_at(unit, *source, point, hash),
        ),
        NoiseNode::AddValue { value, source } => sum_of(
            unit,
            value_at(unit, *source, point, hash),
            value,
        ),
        NoiseNode::MulValue { value, source } => product_of(
            unit,
            value_at(unit, *source, point, hash),
            value,
        ),
        NoiseNode::Clamp { min, max, source } => value_at(unit, *source, point, hash).spec_clamp(
            min,
            max,
        ),
        NoiseNode::Range { low, high, selector, low_noise, high_noise } => range_value(
            unit,
            value_at(unit, *selector, point, hash),
            value_at(unit, *high_noise, point, hash),
            value_at(unit, *low_noise, point, hash),
            high,
            low,
        ),
        NoiseNode::Lerp { selector, low_noise, high_noise } => lerp_value(
            unit,
            value_at(unit, *selector, point, hash),
            value_at(unit, *high_noise, point, hash),
            value_at(unit, *low_noise, point, hash),
        ),
        NoiseNode::AddNoise { left, right } => sum_of(
            unit,
            value_at(unit, *left, point, hash),
            value_at(unit, *right, point, hash),
        ),
        NoiseNode::Mul { left, right } => product_of(
            unit,
            value_at(unit, *left, point, hash),
            value_at(unit, *right, point, hash),
        ),
        NoiseNode::Max { left, right } => value_at(unit, *left, point, hash).spec_max(
            value_at(unit, *right, point, hash),
        ),
        NoiseNode::Min { left, right } => value_at(unit, *left, point, hash).spec_min(
            value_at(unit, *right, point, hash),
        ),
    }
}

/// The fractal sum of `octaves` further octaves of `source` on top of `sum`: each octave
/// adds its sample times `amplitude`, then the point is scaled by `lacunarity` and the
/// amplitude by `gain` for the next.
pub open spec fn fbm_sum<F: Fn(Operation) -> Scalar>(
    unit: &F,
    source: NoiseNode,
    gain: Scalar,
    lacunarity: Scalar,
    octaves: nat,
    point: Point,
    amplitude: Scalar,
    sum: Scalar,
    hash: i32,
) -> Scalar
    decreases source, octaves,
{
    if octaves == 0 {
        sum
    } else {
        fbm_sum(
            unit,
            source,
            gain,
            lacunarity,
            (octaves - 1) as nat,
            scaled_point(unit, point, lacunarity),
            product_of(unit, amplitude, gain),
            sum_of(unit, sum, product_of(unit, value_at(unit, source, point, hash), amplitude)),
            hash,
        )
    }
}

/// Computes [`lerp_value`].
pub fn lerp<F: Fn(Operation) -> Scalar>(selector: Scalar, high: Scalar, low: Scalar, unit: &F) -> (r:
    Scalar)
    requires
        dependable(unit),
    ensures
        r == lerp_value(unit, selector, high, low),
{
    let interpolation = perform(
        unit,
        Operation::MulAdd(selector, Scalar::half(), Scalar::half()),
    );
    let step = perform(unit, Operation::Sub(high, low));
    perform(unit, Operation::MulAdd(step, interpolation, low))
}

/// Computes [`range_value`].
pub fn range<F: Fn(Operation) -> Scalar>(
    selector: Scalar,
    high_noise: Scalar,
    low_noise: Scalar,
    high: Scalar,
    low: Scalar,
    unit: &F,
) -> (r: Scalar)
    requires
        dependable(unit),
    ensures
        r == range_value(unit, selector, high_noise, low_noise, high, low),
{
    let low_clipped = selector.lt(low);
    let high_clipped = selector.gt(high);
    let travelled = perform(unit, Operation::Sub(selector, low));
    let span = perform(unit, Operation::Sub(high, low));
    let interpolation = perform(unit, Operation::Div(travelled, span));
    let step = perform(unit, Operation::Sub(high_noise, low_noise));
    let blended = perform(unit, Operation::MulAdd(step, interpolation, low_noise));
    if low_clipped {
        low_noise
    } else if high_clipped {
        high_noise
    } else {
        blended
    }
}

/// Sums the octaves of a fractal node, see [`fbm_sum`].
pub fn fbm<F: Fn(Operation) -> Scalar>(
    source: &NoiseNode,
    octaves: u32,
    gain: Scalar,
    lacunarity: Scalar,
    scaled_amplitude: Scalar,
    point: Point,
    hash: i32,
    unit: &F,
) -> (r: Scalar)
    requires
        dependable(unit),
    ensures
        r == fbm_sum(
            unit,
            *source,
            gain,
            lacunarity,
            octaves as nat,
            point,
            scaled_amplitude,
            ZERO(),
            hash,
        ),
    decreases *source, 1nat,
{
    let ghost total = fbm_sum(
        unit,
        *source,
        gain,
        lacunarity,
        octaves as nat,
        point,
        scaled_amplitude,
        ZERO(),
        hash,
    );
    let mut amplitude: Scalar = scaled_amplitude;
    let mut result: Scalar = Scalar::zero();
    let mut at: Point = point;
    let mut done: u32 = 0;
    while done < octaves
        invariant
            dependable(unit),
            done <= octaves,
            total == fbm_sum(
                unit,
                *source,
                gain,
                lacunarity,
                (octaves - done) as nat,
                at,
                amplitude,
                result,
                hash,
            ),
        decreases octaves - done,
    {
        let noise = evaluate(source, at, hash, unit);
        let weighted = perform(unit, Operation::Mul(noise, amplitude));
        result = perform(unit, Operation::Add(result, weighted));
        amplitude = perform(unit, Operation::Mul(amplitude, gain));
        let x = perform(unit, Operation::Mul(at.x, lacunarity));
        let y = perform(unit, Operation::Mul(at.y, lacunarity));
        let z = perform(unit, Operation::Mul(at.z, lacunarity));
        at = Point { x, y, z };
        done = done + 1;
    }
    result
}

/// Evaluates the node at a point, see [`value_at`].
pub fn evaluate<F: Fn(Operation) -> Scalar>(
    node: &NoiseNode,
    point: Point,
    hash: i32,
    unit: &F,
) -> (r: Scalar)
    requires
        dependable(unit),
    ensures
        r == value_at(unit, *node, point, hash),
    decreases *node, 0nat,
{
    match node {
        NoiseNode::Base { kernel, seed, frequency } => perform(
            unit,
            Operation::Sample {
                kernel: *kernel,
                seed: *seed,
                hash,
                frequency: *frequency,
                point,
            },
        ),
        NoiseNode::Constant { value } => *value,
        NoiseNode::Fbm { octaves, gain, lacunarity, scaled_amplitude, source } => fbm(
            source,
            *octaves,
            *gain,
            *lacunarity,
            *scaled_amplitude,
            point,
            hash,
            unit,
        ),
        NoiseNode::Abs { source } => {
            let v = evaluate(source, point, hash, unit);
            v.abs()
        },
        NoiseNode::Square { source } => {
            let v = evaluate(source, point, hash, unit);
            perform(unit, Operation::Mul(v, v))
        },
        NoiseNode::AddValue { value, source } => {
            let v = evaluate(source, point, hash, unit);
            perform(unit, Operation::Add(v, *value))
        },
        NoiseNode::MulValue { value, source } => {
            let v = evaluate(source, point, hash, unit);
            perform(unit, Operation::Mul(v, *value))
        },
        NoiseNode::Clamp { min, max, source } => {
            let v = evaluate(source, point, hash, unit);
            v.clamp(*min, *max)
        },
        NoiseNode::Range { low, high, selector, low_noise, high_noise } => {
            let s = evaluate(selector, point, hash, unit);
            let h = evaluate(high_noise, point, hash, unit);
            let l = evaluate(low_noise, point, hash, unit);
            range(s, h, l, *high, *low, unit)
        },
        NoiseNode::Lerp { selector, low_noise, high_noise } => {
            let s = evaluate(selector, point, hash, unit);
            let h = evaluate(high_noise, point, hash, unit);
            let l = evaluate(low_noise, point, hash, unit);
            lerp(s, h, l, unit)
        },
        NoiseNode::AddNoise { left, right } => {
            let a = evaluate(left, point, hash, unit);
            let b = evaluate(right, point, hash, unit);
            perform(unit, Operation::Add(a, b))
        },
        NoiseNode::Mul { left, right } => {
            let a = evaluate(left, point, hash, unit);
            let b = evaluate(right, point, hash, unit);
            perform(unit, Operation::Mul(a, b))
        },
        NoiseNode::Max { left, right } => {
            let a = evaluate(left, point, hash, unit);
            let b = evaluate(right, point, hash, unit);
            a.max(b)
        },
        NoiseNode::Min { left, right } => {
            let a = evaluate(left, point, hash, unit);
            let b = evaluate(right, point, hash, unit);
            a.min(b)
        },
    }
}

} // verus!
