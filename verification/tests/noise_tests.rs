use fmc_noise::generate::{generate_1d, generate_2d, generate_3d};
use fmc_noise::node::{compile, evaluate, lerp, range, Dimensions, NoiseNode};
use fmc_noise::noise::{scale_amplitude, Noise, NoiseSettings};
use fmc_noise::pipeline::{lane_starts, shift, Axis, NoisePipeline};
use fmc_noise::rng::Rng;
use fmc_noise::scalar::Scalar;
use fmc_noise::unit::{perform, Frequency, Kernel, Operation, Point};

fn value(v: f32) -> Scalar {
    Scalar::from_bits(v.to_bits())
}

fn number(s: Scalar) -> f32 {
    f32::from_bits(s.to_bits())
}

fn numbers(values: &[Scalar]) -> Vec<f32> {
    values.iter().map(|s| number(*s)).collect()
}

fn kernel_number(kernel: Kernel) -> f32 {
    match kernel {
        Kernel::Simplex1d => 1.0,
        Kernel::Simplex2d => 2.0,
        Kernel::Simplex3d => 3.0,
        Kernel::Perlin2d => 4.0,
        Kernel::Perlin3d => 5.0,
    }
}

/// Hardware arithmetic; base noise is a plane wave over the point, so that every sample
/// tells where it was taken.
fn hardware(op: Operation) -> Scalar {
    match op {
        Operation::Add(a, b) => value(number(a) + number(b)),
        Operation::Sub(a, b) => value(number(a) - number(b)),
        Operation::Mul(a, b) => value(number(a) * number(b)),
        Operation::Div(a, b) => value(number(a) / number(b)),
        Operation::MulAdd(a, b, c) => value(number(a).mul_add(number(b), number(c))),
        Operation::FromCount(n) => value(n as f32),
        Operation::Sample { frequency, point, .. } => value(
            number(point.x) * number(frequency.x)
                + number(point.y) * number(frequency.y)
                + number(point.z) * number(frequency.z),
        ),
    }
}

/// Hardware arithmetic; base noise answers with the number of its kernel.
fn naming_kernels(op: Operation) -> Scalar {
    match op {
        Operation::Sample { kernel, .. } => value(kernel_number(kernel)),
        other => hardware(other),
    }
}

/// Hardware arithmetic; base noise answers with the generator's draw plus its own seed.
fn naming_seeds(op: Operation) -> Scalar {
    match op {
        Operation::Sample { seed, hash, .. } => value((hash as f32) + (seed as f32)),
        other => hardware(other),
    }
}

/// Hardware arithmetic; base noise is a wave that rises and falls along the first axis.
fn wave(op: Operation) -> Scalar {
    match op {
        Operation::Sample { point, .. } => value((number(point.x) * 0.37).sin()),
        other => hardware(other),
    }
}

fn probe() -> Noise {
    Noise::simplex(Frequency::new_3d(value(1.0), value(100.0), value(10000.0)), 0)
}

fn true_min(values: &[f32]) -> f32 {
    values.iter().copied().fold(f32::MAX, f32::min)
}

fn true_max(values: &[f32]) -> f32 {
    values.iter().copied().fold(f32::MIN, f32::max)
}

#[test]
fn constant_plane_of_four_by_four() {
    let (values, min, max) = Noise::constant(value(0.5)).generate_2d(
        value(0.0),
        value(0.0),
        4,
        4,
        8,
        &hardware,
    );
    assert_eq!(values.len(), 16);
    for v in &values {
        assert_eq!(number(*v), 0.5);
    }
    assert_eq!(number(min), 0.5);
    assert_eq!(number(max), 0.5);
}

#[test]
fn clamped_constant_line_of_five() {
    let (values, min, max) = Noise::constant(value(1.0))
        .clamp(value(-0.2), value(0.2))
        .generate_1d(value(0.0), 5, 4, &hardware);
    assert_eq!(values.len(), 5);
    for v in &values {
        assert_eq!(number(*v), 0.2);
    }
    assert_eq!(number(min), 0.2);
    assert_eq!(number(max), 0.2);
}

#[test]
fn buffers_have_the_length_of_the_extent() {
    let noise = probe();
    for lanes in [1usize, 4, 8, 16] {
        for width in [0usize, 1, 3, 8, 17] {
            let (line, _, _) = generate_1d(&noise, value(0.0), width, lanes, &hardware);
            assert_eq!(line.len(), width);
            for height in [0usize, 1, 5, 16] {
                let (plane, _, _) =
                    generate_2d(&noise, value(0.0), value(0.0), width, height, lanes, &hardware);
                assert_eq!(plane.len(), width * height);
                for depth in [0usize, 1, 3] {
                    let (cube, _, _) = generate_3d(
                        &noise,
                        value(0.0),
                        value(0.0),
                        value(0.0),
                        width,
                        height,
                        depth,
                        lanes,
                        &hardware,
                    );
                    assert_eq!(cube.len(), width * height * depth);
                }
            }
        }
    }
}

#[test]
fn zero_extent_leaves_the_sentinels() {
    let noise = Noise::constant(value(0.5));
    let (line, min, max) = noise.generate_1d(value(0.0), 0, 8, &hardware);
    assert!(line.is_empty());
    assert_eq!(number(min), f32::MAX);
    assert_eq!(number(max), f32::MIN);
    let (plane, min, max) = noise.generate_2d(value(0.0), value(0.0), 4, 0, 8, &hardware);
    assert!(plane.is_empty());
    assert_eq!(number(min), f32::MAX);
    assert_eq!(number(max), f32::MIN);
    let (cube, min, max) =
        noise.generate_3d(value(0.0), value(0.0), value(0.0), 0, 4, 4, 8, &hardware);
    assert!(cube.is_empty());
    assert_eq!(number(min), f32::MAX);
    assert_eq!(number(max), f32::MIN);
}

#[test]
fn line_walks_the_first_axis() {
    let (values, min, max) = probe().generate_1d(value(10.0), 11, 4, &hardware);
    let expected: Vec<f32> = (0..11).map(|i| 10.0 + i as f32).collect();
    assert_eq!(numbers(&values), expected);
    assert_eq!(number(min), 10.0);
    assert_eq!(number(max), 20.0);
}

#[test]
fn line_is_the_same_for_every_lane_width() {
    let reference = numbers(&probe().generate_1d(value(-3.0), 37, 1, &hardware).0);
    for lanes in [2usize, 4, 8, 16, 64] {
        let values = numbers(&probe().generate_1d(value(-3.0), 37, lanes, &hardware).0);
        assert_eq!(values, reference);
    }
}

#[test]
fn plane_is_indexed_by_first_axis_times_height_plus_second() {
    let width = 3;
    let height = 5;
    let (values, min, max) =
        probe().generate_2d(value(1.0), value(2.0), width, height, 4, &hardware);
    assert_eq!(values.len(), 15);
    for xi in 0..width {
        for yi in 0..height {
            let expected = (1.0 + xi as f32) + 100.0 * (2.0 + yi as f32);
            assert_eq!(number(values[xi * height + yi]), expected);
        }
    }
    assert_eq!(number(min), 1.0 + 200.0);
    assert_eq!(number(max), 3.0 + 600.0);
}

#[test]
fn cube_is_indexed_first_axis_then_third_then_second() {
    let width = 2;
    let height = 5;
    let depth = 3;
    let (values, min, max) = probe().generate_3d(
        value(1.0),
        value(2.0),
        value(3.0),
        width,
        height,
        depth,
        4,
        &hardware,
    );
    assert_eq!(values.len(), 30);
    for xi in 0..width {
        for zi in 0..depth {
            for yi in 0..height {
                let expected = (1.0 + xi as f32)
                    + 100.0 * (2.0 + yi as f32)
                    + 10000.0 * (3.0 + zi as f32);
                assert_eq!(number(values[xi * depth * height + zi * height + yi]), expected);
            }
        }
    }
    assert_eq!(number(min), 1.0 + 200.0 + 30000.0);
    assert_eq!(number(max), 2.0 + 600.0 + 50000.0);
}

#[test]
fn two_evaluations_agree_bit_for_bit() {
    let noise = Noise::simplex(Frequency::from(value(0.01)), 3)
        .seed(9)
        .fbm(4, value(0.5), value(2.0), &wave)
        .abs()
        .add(Noise::constant(value(0.5)));
    let first = noise.generate_2d(value(0.25), value(-7.5), 13, 11, 8, &wave);
    let second = noise.generate_2d(value(0.25), value(-7.5), 13, 11, 8, &wave);
    assert_eq!(first, second);
    let first = noise.generate_3d(value(0.25), value(-7.5), value(1.0), 5, 7, 3, 4, &wave);
    let second = noise.generate_3d(value(0.25), value(-7.5), value(1.0), 5, 7, 3, 4, &wave);
    assert_eq!(first, second);
    let first = noise.generate_1d(value(0.25), 100, 16, &wave);
    let second = noise.generate_1d(value(0.25), 100, 16, &wave);
    assert_eq!(first, second);
}

#[test]
fn fbm_of_a_constant_is_normalized() {
    for octaves in 1..=8u32 {
        for gain in [0.25f32, 0.5, 0.75, 1.0, 2.0] {
            let noise =
                Noise::constant(value(1.0)).fbm(octaves, value(gain), value(2.0), &hardware);
            let (values, min, max) = noise.generate_2d(value(3.0), value(-4.0), 3, 5, 4, &hardware);
            for v in &values {
                assert!((number(*v) - 1.0).abs() < 1.0e-5, "{octaves} octaves, gain {gain}");
            }
            assert!((number(min) - 1.0).abs() < 1.0e-5);
            assert!((number(max) - 1.0).abs() < 1.0e-5);
        }
    }
}

#[test]
fn scaled_amplitude_of_two_octaves_at_half_gain() {
    // 1 / (1 + 0.5)
    assert_eq!(number(scale_amplitude(&hardware, 2, value(0.5))), 1.0 / 1.5);
    assert_eq!(number(scale_amplitude(&hardware, 1, value(0.5))), 1.0);
    // 1 / (1 + 0.5 + 0.25)
    assert_eq!(number(scale_amplitude(&hardware, 3, value(0.5))), 1.0 / 1.75);
}

#[test]
fn fbm_scales_the_point_and_the_amplitude_octave_by_octave() {
    // Source is x; octaves sample x, 2x, 4x at amplitudes a, a/2, a/4 with a = 1/1.75.
    let noise = Noise::simplex(Frequency::new_1d(value(1.0)), 0).fbm(
        3,
        value(0.5),
        value(2.0),
        &hardware,
    );
    let (values, _, _) = noise.generate_1d(value(1.0), 2, 4, &hardware);
    let a = 1.0f32 / 1.75;
    let at = |x: f32| 0.0 + x * a + (2.0 * x) * (a * 0.5) + (4.0 * x) * (a * 0.5 * 0.5);
    assert_eq!(number(values[0]), at(1.0));
    assert_eq!(number(values[1]), at(2.0));
}

#[test]
fn abs_is_never_negative() {
    let noise = Noise::simplex(Frequency::from(value(1.0)), 0).abs();
    let (values, min, _) = noise.generate_1d(value(-50.0), 101, 8, &wave);
    for v in &values {
        assert!(number(*v) >= 0.0);
    }
    assert!(number(min) >= 0.0);
}

#[test]
fn square_is_never_negative() {
    let noise = Noise::simplex(Frequency::from(value(1.0)), 0).square();
    let (values, min, _) = noise.generate_1d(value(-50.0), 101, 8, &wave);
    let plain = Noise::simplex(Frequency::from(value(1.0)), 0)
        .generate_1d(value(-50.0), 101, 8, &wave)
        .0;
    for (v, p) in values.iter().zip(plain.iter()) {
        assert!(number(*v) >= 0.0);
        assert_eq!(number(*v), number(*p) * number(*p));
    }
    assert!(number(min) >= 0.0);
}

#[test]
fn clamp_lies_in_the_band() {
    let noise = Noise::simplex(Frequency::from(value(1.0)), 0).clamp(value(-0.25), value(0.5));
    let (values, min, max) = noise.generate_1d(value(-50.0), 101, 8, &wave);
    for v in &values {
        assert!(number(*v) >= -0.25 && number(*v) <= 0.5);
    }
    assert_eq!(number(min), -0.25);
    assert_eq!(number(max), 0.5);
}

#[test]
fn range_above_high_is_the_high_noise() {
    let high_noise = Noise::simplex(Frequency::from(value(1.0)), 0);
    let expected = high_noise.generate_1d(value(0.0), 40, 8, &wave).0;
    let noise = Noise::constant(value(0.9)).range(
        value(0.5),
        value(-0.5),
        high_noise,
        Noise::constant(value(7.0)),
    );
    let (values, _, _) = noise.generate_1d(value(0.0), 40, 8, &wave);
    assert_eq!(values, expected);
}

#[test]
fn range_below_low_is_the_low_noise() {
    let low_noise = Noise::simplex(Frequency::from(value(1.0)), 0);
    let expected = low_noise.generate_1d(value(0.0), 40, 8, &wave).0;
    let noise = Noise::constant(value(-0.9)).range(
        value(0.5),
        value(-0.5),
        Noise::constant(value(7.0)),
        low_noise,
    );
    let (values, _, _) = noise.generate_1d(value(0.0), 40, 8, &wave);
    assert_eq!(values, expected);
}

#[test]
fn range_in_between_blends() {
    // Selector 0.0 between low -0.5 and high 0.5: half way from 2.0 to 4.0.
    let r = range(value(0.0), value(4.0), value(2.0), value(0.5), value(-0.5), &hardware);
    assert_eq!(number(r), 3.0);
    let r = range(value(0.25), value(4.0), value(2.0), value(0.5), value(-0.5), &hardware);
    assert_eq!(number(r), 3.5);
    let r = range(value(0.6), value(4.0), value(2.0), value(0.5), value(-0.5), &hardware);
    assert_eq!(number(r), 4.0);
    let r = range(value(-0.6), value(4.0), value(2.0), value(0.5), value(-0.5), &hardware);
    assert_eq!(number(r), 2.0);
}

#[test]
fn range_with_equal_bounds_gives_nan_inside() {
    let r = range(value(0.5), value(4.0), value(2.0), value(0.5), value(0.5), &hardware);
    assert!(number(r).is_nan());
    let noise = Noise::constant(value(0.5)).range(
        value(0.5),
        value(0.5),
        Noise::constant(value(4.0)),
        Noise::constant(value(2.0)),
    );
    let (values, min, max) = noise.generate_1d(value(0.0), 5, 4, &hardware);
    for v in &values {
        assert!(v.is_nan());
    }
    // NaN is never counted towards the extremes.
    assert_eq!(number(min), f32::MAX);
    assert_eq!(number(max), f32::MIN);
}

#[test]
fn range_below_low_wins_where_the_bounds_are_out_of_order() {
    // Above high 0.0 and below low 1.0 at once.
    let r = range(value(0.5), value(4.0), value(2.0), value(0.0), value(1.0), &hardware);
    assert_eq!(number(r), 2.0);
}

#[test]
fn lerp_blends_by_the_selector() {
    assert_eq!(number(lerp(value(-1.0), value(4.0), value(2.0), &hardware)), 2.0);
    assert_eq!(number(lerp(value(1.0), value(4.0), value(2.0), &hardware)), 4.0);
    assert_eq!(number(lerp(value(0.0), value(4.0), value(2.0), &hardware)), 3.0);
    assert_eq!(number(lerp(value(0.5), value(4.0), value(2.0), &hardware)), 3.5);
    let noise = Noise::constant(value(0.0))
        .lerp(Noise::constant(value(10.0)), Noise::constant(value(20.0)));
    let (values, _, _) = noise.generate_1d(value(0.0), 3, 4, &hardware);
    assert_eq!(numbers(&values), vec![15.0, 15.0, 15.0]);
}

#[test]
fn extremes_are_the_true_ones_with_a_remainder() {
    let noise = Noise::simplex(Frequency::from(value(1.0)), 0);
    for lanes in [8usize, 16] {
        let (values, min, max) = noise.generate_1d(value(-200.0), 1023, lanes, &wave);
        let plain = numbers(&values);
        assert_eq!(plain.len(), 1023);
        assert_eq!(number(min), true_min(&plain));
        assert_eq!(number(max), true_max(&plain));
    }
}

#[test]
fn extremes_in_the_remainder_are_found() {
    // The greatest value is the last one, in the partial block.
    let (values, min, max) = probe().generate_1d(value(0.0), 19, 8, &hardware);
    assert_eq!(number(max), 18.0);
    assert_eq!(number(min), 0.0);
    assert_eq!(values.len(), 19);
    // The least value is the last one.
    let falling = probe().mul_value(value(-1.0));
    let (_, min, max) = falling.generate_1d(value(0.0), 19, 8, &hardware);
    assert_eq!(number(min), -18.0);
    assert_eq!(number(max), 0.0);
}

#[test]
fn extremes_of_planes_and_cubes_are_the_true_ones() {
    let noise = Noise::simplex(Frequency::from(value(1.0)), 0)
        .add(Noise::simplex(Frequency::from(value(1.0)), 0).mul_value(value(0.5)));
    let (values, min, max) = noise.generate_2d(value(-9.0), value(2.0), 21, 13, 8, &wave);
    let plain = numbers(&values);
    assert_eq!(number(min), true_min(&plain));
    assert_eq!(number(max), true_max(&plain));
    let (values, min, max) =
        noise.generate_3d(value(-9.0), value(2.0), value(0.5), 7, 13, 5, 16, &wave);
    let plain = numbers(&values);
    assert_eq!(number(min), true_min(&plain));
    assert_eq!(number(max), true_max(&plain));
}

#[test]
fn arithmetic_combinators() {
    let three = || Noise::constant(value(3.0));
    let four = || Noise::constant(value(4.0));
    let line = |noise: Noise| numbers(&noise.generate_1d(value(0.0), 2, 4, &hardware).0);
    assert_eq!(line(three().add(four())), vec![7.0, 7.0]);
    assert_eq!(line(three().mul(four())), vec![12.0, 12.0]);
    assert_eq!(line(three().max(four())), vec![4.0, 4.0]);
    assert_eq!(line(three().min(four())), vec![3.0, 3.0]);
    assert_eq!(line(three().add_value(value(0.5))), vec![3.5, 3.5]);
    assert_eq!(line(three().mul_value(value(0.5))), vec![1.5, 1.5]);
    assert_eq!(line(three().square()), vec![9.0, 9.0]);
    assert_eq!(line(Noise::constant(value(-3.0)).abs()), vec![3.0, 3.0]);
}

#[test]
fn perlin_on_a_line_uses_the_simplex_kernel() {
    let perlin = || Noise::perlin(Frequency::from(value(1.0)), 0);
    let simplex = || Noise::simplex(Frequency::from(value(1.0)), 0);
    let first = |values: (Vec<Scalar>, Scalar, Scalar)| number(values.0[0]);
    assert_eq!(first(simplex().generate_1d(value(0.0), 1, 4, &naming_kernels)), 1.0);
    assert_eq!(first(perlin().generate_1d(value(0.0), 1, 4, &naming_kernels)), 1.0);
    assert_eq!(first(simplex().generate_2d(value(0.0), value(0.0), 1, 1, 4, &naming_kernels)), 2.0);
    assert_eq!(first(perlin().generate_2d(value(0.0), value(0.0), 1, 1, 4, &naming_kernels)), 4.0);
    assert_eq!(
        first(simplex().generate_3d(
            value(0.0),
            value(0.0),
            value(0.0),
            1,
            1,
            1,
            4,
            &naming_kernels
        )),
        3.0
    );
    assert_eq!(
        first(perlin().generate_3d(
            value(0.0),
            value(0.0),
            value(0.0),
            1,
            1,
            1,
            4,
            &naming_kernels
        )),
        5.0
    );
}

#[test]
fn compile_keeps_the_shape() {
    let noise = Noise::perlin(Frequency::from(value(1.0)), 5).abs().clamp(value(0.0), value(1.0));
    let node = compile(&noise.settings, Dimensions::XY);
    match node {
        NoiseNode::Clamp { min, max, source } => {
            assert_eq!(number(min), 0.0);
            assert_eq!(number(max), 1.0);
            match *source {
                NoiseNode::Abs { source } => match *source {
                    NoiseNode::Base { kernel, seed, .. } => {
                        assert_eq!(kernel, Kernel::Perlin2d);
                        assert_eq!(seed, 5);
                    }
                    other => panic!("unexpected node {other:?}"),
                },
                other => panic!("unexpected node {other:?}"),
            }
        }
        other => panic!("unexpected node {other:?}"),
    }
}

#[test]
fn samples_receive_the_first_draw_of_the_seed() {
    let mut rng = Rng::new(9);
    let draw = rng.next();
    let noise = Noise::simplex(Frequency::from(value(1.0)), 4).seed(9);
    let (values, _, _) = noise.generate_1d(value(0.0), 9, 4, &naming_seeds);
    for v in &values {
        assert_eq!(number(*v), (draw as f32) + 4.0);
    }
}

#[test]
fn seed_is_that_of_the_noise_the_method_is_called_on() {
    let left = Noise::simplex(Frequency::from(value(0.01)), 0).seed(1);
    let right = Noise::simplex(Frequency::from(value(0.01)), 0).seed(2);
    let noise = left.add(right);
    assert_eq!(noise.seed, 1);
    assert_eq!(Noise::constant(value(1.0)).seed, 0);
}

#[test]
fn builders_wrap_the_expression() {
    let noise = Noise::constant(value(1.0)).fbm(5, value(0.5), value(2.0), &hardware);
    match &noise.settings {
        NoiseSettings::Fbm { octaves, gain, lacunarity, scaled_amplitude, source } => {
            assert_eq!(*octaves, 5);
            assert_eq!(number(*gain), 0.5);
            assert_eq!(number(*lacunarity), 2.0);
            assert_eq!(number(*scaled_amplitude), 1.0 / (1.0 + 0.5 + 0.25 + 0.125 + 0.0625));
            assert!(matches!(**source, NoiseSettings::Constant { .. }));
        }
        other => panic!("unexpected settings {other:?}"),
    }
    let copy = noise.duplicate();
    assert_eq!(format!("{:?}", copy), format!("{:?}", noise));
    let ranged = Noise::constant(value(0.0)).range(
        value(0.5),
        value(-0.5),
        Noise::constant(value(1.0)),
        Noise::constant(value(2.0)),
    );
    match ranged.settings {
        NoiseSettings::Range { low, high, high_noise, low_noise, .. } => {
            assert_eq!(number(low), -0.5);
            assert_eq!(number(high), 0.5);
            assert!(matches!(*high_noise, NoiseSettings::Constant { value: v } if number(v) == 1.0));
            assert!(matches!(*low_noise, NoiseSettings::Constant { value: v } if number(v) == 2.0));
        }
        other => panic!("unexpected settings {other:?}"),
    }
}

#[test]
fn frequency_constructors() {
    let f = Frequency::new_1d(value(0.1));
    assert_eq!((number(f.x), number(f.y), number(f.z)), (0.1, 0.0, 0.0));
    let f = Frequency::new_2d(value(0.1), value(0.2));
    assert_eq!((number(f.x), number(f.y), number(f.z)), (0.1, 0.0, 0.2));
    let f = Frequency::new_3d(value(0.1), value(0.2), value(0.3));
    assert_eq!((number(f.x), number(f.y), number(f.z)), (0.1, 0.2, 0.3));
    let f = Frequency::from(value(0.4));
    assert_eq!((number(f.x), number(f.y), number(f.z)), (0.4, 0.4, 0.4));
}

#[test]
fn evaluate_at_a_point() {
    let node = compile(&probe().add_value(value(0.5)).settings, Dimensions::XYZ);
    let point = Point { x: value(1.0), y: value(2.0), z: value(3.0) };
    assert_eq!(number(evaluate(&node, point, 0, &hardware)), 1.0 + 200.0 + 30000.0 + 0.5);
}

#[test]
fn pipeline_executes_one_block() {
    let mut pipeline = NoisePipeline::build(&probe(), Dimensions::XY, 4);
    let coordinates = lane_starts(&hardware, value(5.0), 4);
    assert_eq!(numbers(&coordinates), vec![5.0, 6.0, 7.0, 8.0]);
    let fixed = Point { x: value(1.0), y: value(0.0), z: value(0.0) };
    let block = pipeline.execute(Axis::Y, fixed, &coordinates, &hardware);
    assert_eq!(numbers(&block), vec![501.0, 601.0, 701.0, 801.0]);
    let mut moved = coordinates;
    shift(&mut moved, value(4.0), &hardware);
    assert_eq!(numbers(&moved), vec![9.0, 10.0, 11.0, 12.0]);
    assert_eq!(number(perform(&hardware, Operation::MulAdd(value(2.0), value(3.0), value(1.0)))), 7.0);
}

#[test]
fn expressions_without_octaves_are_refused_at_build_time() {
    let broken = Noise {
        seed: 0,
        settings: NoiseSettings::Abs {
            source: Box::new(NoiseSettings::Fbm {
                octaves: 0,
                gain: value(0.5),
                lacunarity: value(2.0),
                scaled_amplitude: value(1.0),
                source: Box::new(NoiseSettings::Constant { value: value(1.0) }),
            }),
        },
    };
    assert!(!broken.settings.check());
    assert!(NoisePipeline::try_build(&broken, Dimensions::XY, 4).is_none());
    let sound = Noise::constant(value(1.0)).fbm(1, value(0.5), value(2.0), &hardware).abs();
    assert!(sound.settings.check());
    let pipeline = NoisePipeline::try_build(&sound.seed(3), Dimensions::XY, 4);
    match pipeline {
        Some(p) => {
            assert_eq!(p.lanes, 4);
            assert_eq!(p.rng.seed, 3);
            assert!(matches!(p.root, NoiseNode::Abs { .. }));
        }
        None => panic!("a sound expression was refused"),
    }
}
