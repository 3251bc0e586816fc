use fmc_noise::rng::Rng;

#[test]
fn new_starts_at_the_seed() {
    let rng = Rng::new(42);
    assert_eq!(rng.seed, 42);
    assert_eq!(rng.current_seed, 42);
}

#[test]
fn next_from_seed_zero() {
    let mut rng = Rng::new(0);
    assert_eq!(rng.next(), -1923485482);
    assert_eq!(rng.current_seed, 3257665815644502181);
    assert_eq!(rng.next(), 412509173);
    assert_eq!(rng.current_seed, 6515331631289004362);
    assert_eq!(rng.next(), -1746426730);
    assert_eq!(rng.seed, 0);
}

#[test]
fn next_from_seed_forty_two() {
    let mut rng = Rng::new(42);
    assert_eq!(rng.next(), 1989687689);
    assert_eq!(rng.next(), 1376280518);
    assert_eq!(rng.next(), -1162310753);
}

#[test]
fn next_wraps_around() {
    let mut rng = Rng::new(u64::MAX);
    assert_eq!(rng.next(), -483175266);
    assert_eq!(rng.current_seed, 3257665815644502180);
    assert_eq!(rng.next(), 1494683817);
}

#[test]
fn reset_repeats_the_sequence() {
    let mut rng = Rng::new(42);
    let first = rng.next();
    let second = rng.next();
    rng.reset();
    assert_eq!(rng.current_seed, 42);
    assert_eq!(rng.next(), first);
    assert_eq!(rng.next(), second);
}

#[test]
fn seeds_differ_in_their_draws() {
    let mut a = Rng::new(1);
    let mut b = Rng::new(2);
    assert_ne!(a.next(), b.next());
}
