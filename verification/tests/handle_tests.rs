use my_library::RandomError;
use my_library::RandomNumberGenerator;

#[test]
fn test_range_bounds() {
    let rng = RandomNumberGenerator::new();

    for _ in 0..1000 {
        let n = rng.range(1, 10);
        assert!(n >= 1);
        assert!(n < 10);
    }
}

#[test]
fn test_reproducibility() {
    let rng = (
        RandomNumberGenerator::seeded(1),
        RandomNumberGenerator::seeded(1),
    );

    (0..1000).for_each(|_| {
        assert_eq!(
            rng.0.range(u32::MIN as i64, u32::MAX as i64),
            rng.1.range(u32::MIN as i64, u32::MAX as i64)
        );
    });
}

#[test]
fn test_next_types() {
    let rng = RandomNumberGenerator::new();
    let _: i32 = rng.gen_next_i32();
    let _: u64 = rng.gen_next();
}

#[test]
fn test_range_inclusive_bounds() {
    let rng = RandomNumberGenerator::new();

    for _ in 0..1000 {
        let n = rng.range_inclusive(1, 10);
        assert!(n >= 1);
        assert!(n <= 10);
    }
}

#[test]
fn test_range_u64_bounds() {
    let rng = RandomNumberGenerator::new();

    for _ in 0..1000 {
        let n = rng.range_u64(5, 50);
        assert!(n >= 5);
        assert!(n < 50);
    }
}

#[test]
fn test_determinism_mixed_operations() {
    let a = RandomNumberGenerator::seeded(42);
    let b = RandomNumberGenerator::seeded(42);

    for _ in 0..200 {
        assert_eq!(a.range(-100, 100), b.range(-100, 100));
        assert_eq!(a.range_inclusive(0, 6), b.range_inclusive(0, 6));
        assert_eq!(a.range_u64(0, 1_000_000), b.range_u64(0, 1_000_000));
        assert_eq!(a.gen_next(), b.gen_next());
        assert_eq!(a.gen_next_i32(), b.gen_next_i32());
    }
}

#[test]
fn test_entropy_handles_differ() {
    let a = RandomNumberGenerator::new();
    let b = RandomNumberGenerator::new();

    let draws_a: Vec<u64> = (0..16).map(|_| a.gen_next()).collect();
    let draws_b: Vec<u64> = (0..16).map(|_| b.gen_next()).collect();
    assert_ne!(draws_a, draws_b);
}

#[test]
fn test_seeded_example_dice() {
    let first = RandomNumberGenerator::seeded(1);
    let first_rolls: Vec<i64> = (0..3).map(|_| first.range_inclusive(1, 6)).collect();
    let first_sum: i64 = first_rolls.iter().sum();

    let second = RandomNumberGenerator::seeded(1);
    let second_rolls: Vec<i64> = (0..3).map(|_| second.range_inclusive(1, 6)).collect();
    let second_sum: i64 = second_rolls.iter().sum();

    assert_eq!(first_rolls, second_rolls);
    assert_eq!(first_sum, second_sum);
    for roll in first_rolls {
        assert!(roll >= 1);
        assert!(roll <= 6);
    }
}

#[test]
fn test_try_range_invalid() {
    let rng = RandomNumberGenerator::new();
    assert_eq!(rng.try_range(5, 5), Err(RandomError::InvalidRange));
    assert_eq!(rng.try_range(7, -7), Err(RandomError::InvalidRange));
    assert_eq!(rng.try_range_inclusive(7, 6), Err(RandomError::InvalidRange));
}

#[test]
fn test_try_range_valid() {
    let rng = RandomNumberGenerator::new();
    let v = rng.try_range(1, 2).unwrap();
    assert_eq!(v, 1);
    assert_eq!(rng.try_range_inclusive(3, 3), Ok(3));
    let w = rng.try_range_inclusive(-2, 2).unwrap();
    assert!(w >= -2);
    assert!(w <= 2);
}

#[test]
fn test_draws_vary() {
    let rng = RandomNumberGenerator::seeded(9);

    let wide: Vec<i64> = (0..64).map(|_| rng.range(0, 1_000_000)).collect();
    assert!(wide.iter().any(|v| *v != wide[0]));

    let wide_inclusive: Vec<i64> = (0..64).map(|_| rng.range_inclusive(0, 1_000_000)).collect();
    assert!(wide_inclusive.iter().any(|v| *v != wide_inclusive[0]));

    let wide_u64: Vec<u64> = (0..64).map(|_| rng.range_u64(0, 1_000_000)).collect();
    assert!(wide_u64.iter().any(|v| *v != wide_u64[0]));

    assert_ne!(rng.gen_next(), rng.gen_next());
    assert_ne!(rng.gen_next_i32(), rng.gen_next_i32());
}

#[test]
fn test_different_seeds_differ() {
    let a = RandomNumberGenerator::seeded(1);
    let b = RandomNumberGenerator::seeded(2);
    let draws_a: Vec<u64> = (0..8).map(|_| a.gen_next()).collect();
    let draws_b: Vec<u64> = (0..8).map(|_| b.gen_next()).collect();
    assert_ne!(draws_a, draws_b);
}

#[test]
fn test_default_is_usable() {
    let rng = RandomNumberGenerator::default();
    let n = rng.range(0, 3);
    assert!(n >= 0);
    assert!(n < 3);
}
