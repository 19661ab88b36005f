use bracket_random::prelude::RandomNumberGenerator;
use dungeon_core::random_table::RandomTable;

#[test]
fn empty_table_always_rolls_none() {
    let table: RandomTable<u32> = RandomTable::new();
    let mut rng = RandomNumberGenerator::seeded(1);
    for _ in 0..100 {
        assert!(table.roll(&mut rng).is_none());
    }
}

#[test]
fn zero_weight_entries_always_roll_none() {
    let table = RandomTable::new().add(1u32, 0).add(2u32, 0).add(3u32, 0);
    let mut rng = RandomNumberGenerator::seeded(7);
    for _ in 0..100 {
        assert!(table.roll(&mut rng).is_none());
    }
}

#[test]
fn walk_resolves_each_roll_value_exactly() {
    // Entries with weights 2 and 3: the walk wins entry 0 on the single
    // zero-based roll 1, entry 1 on rolls 3 and 4, and misses on the
    // boundary rolls 0 and 2.
    let table = RandomTable::new().add('a', 2).add('b', 3);
    assert_eq!(table.total_weight(), 5);
    assert_eq!(table.pick(0), None);
    assert_eq!(table.pick(1), Some('a'));
    assert_eq!(table.pick(2), None);
    assert_eq!(table.pick(3), Some('b'));
    assert_eq!(table.pick(4), Some('b'));
}

#[test]
fn first_entry_is_biased_one_unit_low() {
    // An entry of weight 1 in front can never win: its only candidate
    // roll, zero, short-circuits the walk.
    let table = RandomTable::new().add('a', 1).add('b', 4);
    for roll in 0..5 {
        assert_ne!(table.pick(roll), Some('a'));
    }
}

#[test]
fn empirical_frequencies_match_weight_spans() {
    // Weights 2 and 3 over a total of 5: entry 0 wins 1 of 5 values,
    // entry 1 wins 2 of 5, and None falls out at least 1 in 5.
    let table = RandomTable::new().add('a', 2).add('b', 3);
    let mut rng = RandomNumberGenerator::seeded(42);
    let n = 50_000;
    let mut count_a = 0i64;
    let mut count_b = 0i64;
    let mut count_none = 0i64;
    for _ in 0..n {
        match table.roll(&mut rng) {
            Some('a') => count_a += 1,
            Some('b') => count_b += 1,
            None => count_none += 1,
            Some(_) => unreachable!(),
        }
    }
    let freq_a = count_a as f64 / n as f64;
    let freq_b = count_b as f64 / n as f64;
    let freq_none = count_none as f64 / n as f64;
    assert!((freq_a - 0.2).abs() < 0.02, "entry 0 frequency was {freq_a}");
    assert!((freq_b - 0.4).abs() < 0.02, "entry 1 frequency was {freq_b}");
    assert!(freq_none >= 0.2 - 0.02, "none frequency was {freq_none}");
}

#[test]
fn roll_only_returns_catalog_values() {
    let table = RandomTable::new().add(10u32, 3).add(20u32, 0).add(30u32, 2);
    let mut rng = RandomNumberGenerator::seeded(3);
    for _ in 0..200 {
        match table.roll(&mut rng) {
            Some(v) => {
                assert!(v == 10 || v == 30, "zero-weight entry must never win");
            }
            None => {}
        }
    }
}
