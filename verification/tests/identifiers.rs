use rand::rngs::StdRng;
use rand::SeedableRng;
use syn2mas::{mint, timestamp_of, Timestamp, RANDOM_SPAN, TIMESTAMP_LIMIT};

#[test]
fn timestamp_takes_the_whole_48_bit_range() {
    assert_eq!(TIMESTAMP_LIMIT, 1u64 << 48);
    assert_eq!(Timestamp::from_millis(0).unwrap().millis(), 0);
    let last = (1i64 << 48) - 1;
    assert_eq!(Timestamp::from_millis(last).unwrap().millis(), last);
    assert_eq!(Timestamp::from_millis(1_700_000_000_000).unwrap().millis(), 1_700_000_000_000);
}

#[test]
fn timestamp_refuses_what_an_identifier_cannot_carry() {
    assert_eq!(Timestamp::from_millis(-1), None);
    assert_eq!(Timestamp::from_millis(1i64 << 48), None);
    assert_eq!(Timestamp::from_millis(i64::MIN), None);
    assert_eq!(Timestamp::from_millis(i64::MAX), None);
}

#[test]
fn minted_id_carries_its_timestamp_in_the_high_bits() {
    let mut rng = StdRng::seed_from_u64(42);
    let ts = Timestamp::from_millis(1_700_000_000_000).unwrap();
    let id = mint(ts, &mut rng);
    assert_eq!(RANDOM_SPAN, 1u128 << 80);
    assert_eq!(id >> 80, 1_700_000_000_000u128);
    assert_eq!(id / RANDOM_SPAN, 1_700_000_000_000u128);
    assert_eq!(timestamp_of(id), ts);
}

#[test]
fn minted_id_for_the_ends_of_the_range() {
    let mut rng = StdRng::seed_from_u64(7);
    let first = Timestamp::from_millis(0).unwrap();
    let last = Timestamp::from_millis((1i64 << 48) - 1).unwrap();
    assert_eq!(mint(first, &mut rng) >> 80, 0);
    assert_eq!(mint(last, &mut rng) >> 80, (1u128 << 48) - 1);
}

#[test]
fn timestamp_of_reads_the_high_48_bits() {
    let id: u128 = (1_700_000_003_000u128 << 80) | 0xABCD_EF01_2345_6789_ABCD;
    assert_eq!(timestamp_of(id).millis(), 1_700_000_003_000);
    assert_eq!(timestamp_of(0).millis(), 0);
    assert_eq!(timestamp_of(u128::MAX).millis(), (1i64 << 48) - 1);
    assert_eq!(timestamp_of((1u128 << 80) - 1).millis(), 0);
    assert_eq!(timestamp_of(1u128 << 80).millis(), 1);
}

#[test]
fn ids_minted_in_the_same_millisecond_differ() {
    let mut rng = StdRng::seed_from_u64(42);
    let ts = Timestamp::from_millis(1_700_000_000_000).unwrap();
    let first = mint(ts, &mut rng);
    let second = mint(ts, &mut rng);
    assert_ne!(first, second);
    assert_eq!(first >> 80, second >> 80);
}

#[test]
fn minting_depends_on_the_generator_alone() {
    let ts = Timestamp::from_millis(1_700_000_000_000).unwrap();
    let mut one = StdRng::seed_from_u64(1234);
    let mut other = StdRng::seed_from_u64(1234);
    assert_eq!(mint(ts, &mut one), mint(ts, &mut other));
    assert_eq!(mint(ts, &mut one), mint(ts, &mut other));
}

#[test]
fn ids_sort_by_the_time_they_were_minted_for() {
    let mut rng = StdRng::seed_from_u64(3);
    let earlier = mint(Timestamp::from_millis(1_700_000_000_000).unwrap(), &mut rng);
    let later = mint(Timestamp::from_millis(1_700_000_000_001).unwrap(), &mut rng);
    assert!(earlier < later);
}
