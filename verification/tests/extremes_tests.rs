use fmc_noise::extremes::Extreme;
use fmc_noise::scalar::Scalar;

fn scalar(v: f32) -> Scalar {
    Scalar::from_bits(v.to_bits())
}

fn plain(s: Scalar) -> f32 {
    f32::from_bits(s.to_bits())
}

fn block(values: &[f32]) -> Vec<Scalar> {
    values.iter().map(|v| scalar(*v)).collect()
}

#[test]
fn fresh_accumulators_hold_the_sentinels() {
    assert_eq!(plain(Extreme::new(false, 4).finish()), f32::MAX);
    assert_eq!(plain(Extreme::new(true, 4).finish()), f32::MIN);
    assert_eq!(plain(Extreme::new(false, 0).finish()), f32::MAX);
}

#[test]
fn blocks_fold_lane_by_lane() {
    let mut low = Extreme::new(false, 4);
    let mut high = Extreme::new(true, 4);
    for values in [[3.0f32, -1.0, 7.0, 2.0], [0.5, 9.0, -4.0, 2.0]] {
        low.fold_block(&block(&values));
        high.fold_block(&block(&values));
    }
    assert_eq!(low.lanes, block(&[0.5, -1.0, -4.0, 2.0]));
    assert_eq!(high.lanes, block(&[3.0, 9.0, 7.0, 2.0]));
    assert_eq!(plain(low.finish()), -4.0);
    assert_eq!(plain(high.finish()), 9.0);
}

#[test]
fn single_values_fold_into_the_single_accumulator() {
    let mut low = Extreme::new(false, 4);
    let mut high = Extreme::new(true, 4);
    low.fold_block(&block(&[3.0, 4.0, 5.0, 6.0]));
    high.fold_block(&block(&[3.0, 4.0, 5.0, 6.0]));
    for v in [2.0f32, 8.0] {
        low.fold_one(scalar(v));
        high.fold_one(scalar(v));
    }
    assert_eq!(plain(low.scalar), 2.0);
    assert_eq!(plain(high.scalar), 8.0);
    assert_eq!(plain(low.finish()), 2.0);
    assert_eq!(plain(high.finish()), 8.0);
}

#[test]
fn nan_is_passed_over() {
    let mut low = Extreme::new(false, 2);
    let mut high = Extreme::new(true, 2);
    low.fold_block(&block(&[f32::NAN, 1.0]));
    high.fold_block(&block(&[f32::NAN, 1.0]));
    low.fold_one(scalar(f32::NAN));
    high.fold_one(scalar(f32::NAN));
    assert_eq!(plain(low.finish()), 1.0);
    assert_eq!(plain(high.finish()), 1.0);
}

#[test]
fn infinities_do_not_pass_the_sentinels() {
    let mut low = Extreme::new(false, 1);
    let mut high = Extreme::new(true, 1);
    low.fold_block(&block(&[f32::INFINITY]));
    high.fold_block(&block(&[f32::NEG_INFINITY]));
    assert_eq!(plain(low.finish()), f32::MAX);
    assert_eq!(plain(high.finish()), f32::MIN);
    low.fold_one(scalar(f32::NEG_INFINITY));
    high.fold_one(scalar(f32::INFINITY));
    assert_eq!(plain(low.finish()), f32::NEG_INFINITY);
    assert_eq!(plain(high.finish()), f32::INFINITY);
}

#[test]
fn of_two_zeros_the_negative_is_the_lesser() {
    for values in [[0.0f32, -0.0], [-0.0, 0.0]] {
        let mut low = Extreme::new(false, 1);
        let mut high = Extreme::new(true, 1);
        low.fold_block(&block(&values[..1]));
        high.fold_block(&block(&values[..1]));
        low.fold_one(scalar(values[1]));
        high.fold_one(scalar(values[1]));
        assert_eq!(low.finish(), scalar(-0.0));
        assert_eq!(high.finish(), scalar(0.0));
    }
}
