use neurolov::total_reward;

#[test]
fn total_reward_adds_the_bonus_percentage() {
    assert_eq!(total_reward(1000, 10), Some(1100));
    assert_eq!(total_reward(400, 25), Some(500));
    assert_eq!(total_reward(1000, 0), Some(1000));
    assert_eq!(total_reward(1000, 100), Some(2000));
    assert_eq!(total_reward(0, 50), Some(0));
}

#[test]
fn total_reward_rounds_the_bonus_down() {
    assert_eq!(total_reward(999, 10), Some(1098));
    assert_eq!(total_reward(1, 99), Some(1));
    assert_eq!(total_reward(199, 1), Some(200));
    assert_eq!(total_reward(99, 1), Some(99));
    assert_eq!(total_reward(7, 50), Some(10));
    assert_eq!(total_reward(3, 33), Some(3));
}

#[test]
fn total_reward_is_exact_where_the_product_exceeds_64_bits() {
    assert_eq!(total_reward(u64::MAX, 0), Some(u64::MAX));
    assert_eq!(total_reward(u64::MAX / 2, 100), Some(u64::MAX - 1));
    assert_eq!(total_reward(10_000_000_000_000_000_000, 50), Some(15_000_000_000_000_000_000));
    assert_eq!(total_reward(1_000_000_000_000_000_000, 1_000), Some(11_000_000_000_000_000_000));
}

#[test]
fn total_reward_beyond_64_bits_is_none() {
    assert_eq!(total_reward(u64::MAX, 1), None);
    assert_eq!(total_reward(u64::MAX, 100), None);
    assert_eq!(total_reward(u64::MAX / 2 + 1, 100), None);
    assert_eq!(total_reward(u64::MAX, u64::MAX), None);
    assert_eq!(total_reward(200, u64::MAX), None);
}

#[test]
fn total_reward_takes_a_bonus_above_one_hundred_percent_as_given() {
    assert_eq!(total_reward(10, 250), Some(35));
    assert_eq!(total_reward(1, u64::MAX), Some(184_467_440_737_095_517));
    assert_eq!(total_reward(2, u64::MAX), Some(368_934_881_474_191_034));
}
