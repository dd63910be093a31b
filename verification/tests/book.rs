use market_codec::book::{round_to_tick, L2Book};

fn ascending(levels: &[u64]) -> bool {
    levels.windows(2).all(|w| w[0] < w[1])
}

fn descending(levels: &[u64]) -> bool {
    levels.windows(2).all(|w| w[0] > w[1])
}

#[test]
fn round_to_tick_exact_values() {
    assert_eq!(round_to_tick(12, 5), 10);
    assert_eq!(round_to_tick(13, 5), 15);
    assert_eq!(round_to_tick(15, 5), 15);
    assert_eq!(round_to_tick(0, 5), 0);
    // halves round up
    assert_eq!(round_to_tick(10, 4), 12);
    assert_eq!(round_to_tick(9, 4), 8);
    assert_eq!(round_to_tick(7, 1), 7);
}

#[test]
fn upserts_keep_ascending_order() {
    // levels enter worst-first: an upsert beyond the current worst is dropped
    let mut book: L2Book<3, false> = L2Book::new(1);
    book.update(12, 5, |_p| None::<u64>);
    book.update(10, 5, |_p| None::<u64>);
    book.update(11, 5, |_p| None::<u64>);
    assert_eq!(book.levels(), &[10, 11, 12]);
}

#[test]
fn upserts_keep_descending_order_on_reverse_side() {
    let mut book: L2Book<3, true> = L2Book::new(1);
    book.update(10, 5, |_p| None::<u64>);
    book.update(12, 5, |_p| None::<u64>);
    book.update(11, 5, |_p| None::<u64>);
    assert_eq!(book.levels(), &[12, 11, 10]);
}

#[test]
fn delete_then_replace_refills_from_lookup() {
    let mut book: L2Book<3, false> = L2Book::new(1);
    book.update(12, 1, |_p| None::<u64>);
    book.update(11, 1, |_p| None::<u64>);
    book.update(10, 1, |_p| None::<u64>);
    book.update(10, 0, |old_worst| {
        assert_eq!(old_worst, 12);
        Some(13)
    });
    assert_eq!(book.levels(), &[11, 12, 13]);
}

#[test]
fn delete_with_no_replacement_shrinks_until_upsert() {
    let mut book: L2Book<3, false> = L2Book::new(1);
    book.update(12, 1, |_p| None::<u64>);
    book.update(11, 1, |_p| None::<u64>);
    book.update(10, 1, |_p| None::<u64>);
    book.update(11, 0, |old_worst| {
        assert_eq!(old_worst, 12);
        None::<u64>
    });
    assert_eq!(book.levels(), &[10, 12]);
    // only upserts re-grow the array after an exhausted lookup
    book.update(9, 1, |_p| None::<u64>);
    assert_eq!(book.levels(), &[9, 10, 12]);
}

#[test]
fn upsert_at_capacity_evicts_worst() {
    let mut book: L2Book<3, false> = L2Book::new(1);
    book.update(7, 1, |_p| None::<u64>);
    book.update(6, 1, |_p| None::<u64>);
    book.update(5, 1, |_p| None::<u64>);
    book.update(4, 1, |_p| None::<u64>);
    assert_eq!(book.levels(), &[4, 5, 6]);
}

#[test]
fn delete_of_absent_price_is_a_no_op() {
    let mut book: L2Book<3, false> = L2Book::new(1);
    book.update(7, 1, |_p| None::<u64>);
    book.update(6, 1, |_p| None::<u64>);
    book.update(5, 1, |_p| None::<u64>);
    // absent and better than the best level: the matched slot holds 5, not 4
    book.update(4, 0, |_p| Some(10));
    assert_eq!(book.levels(), &[5, 6, 7]);
    // absent and beyond the worst level: the scan finds no position
    book.update(8, 0, |_p| Some(10));
    assert_eq!(book.levels(), &[5, 6, 7]);
}

#[test]
fn delete_on_empty_book_is_a_no_op() {
    let mut book: L2Book<3, false> = L2Book::new(1);
    book.update(5, 0, |_p| Some(6));
    assert_eq!(book.levels(), &[] as &[u64]);
}

#[test]
fn upsert_of_retained_price_changes_nothing() {
    let mut book: L2Book<3, false> = L2Book::new(1);
    book.update(6, 1, |_p| None::<u64>);
    book.update(5, 1, |_p| None::<u64>);
    book.update(5, 9, |_p| None::<u64>);
    assert_eq!(book.levels(), &[5, 6]);
}

#[test]
fn upsert_beyond_worst_is_dropped() {
    let mut book: L2Book<3, false> = L2Book::new(1);
    book.update(6, 1, |_p| None::<u64>);
    book.update(5, 1, |_p| None::<u64>);
    // 7 is worse than every retained level: the scan finds no position
    book.update(7, 1, |_p| None::<u64>);
    assert_eq!(book.levels(), &[5, 6]);
}

#[test]
fn prices_are_rounded_to_tick_before_use() {
    let mut book: L2Book<4, false> = L2Book::new(5);
    book.update(13, 1, |_p| None::<u64>); // -> 15
    book.update(12, 1, |_p| None::<u64>); // -> 10
    book.update(11, 1, |_p| None::<u64>); // -> 10, already retained
    assert_eq!(book.levels(), &[10, 15]);
}

#[test]
fn ordering_and_capacity_hold_over_random_sequence() {
    let mut book: L2Book<4, false> = L2Book::new(2);
    let mut rev: L2Book<4, true> = L2Book::new(2);
    let mut seed: u64 = 0x9E3779B97F4A7C15;
    for _ in 0..500 {
        seed = seed.wrapping_mul(6364136223846793005).wrapping_add(1442695040888963407);
        let px = (seed >> 33) % 1000;
        let amt = (seed >> 20) % 3; // zero sometimes: deletes
        book.update(px, amt, |p| if p >= 998 { None } else { Some(p + 2) });
        rev.update(px, amt, |p| if p < 2 { None } else { Some(p - 2) });
        assert!(book.levels().len() <= 4);
        assert!(rev.levels().len() <= 4);
        assert!(ascending(book.levels()));
        assert!(descending(rev.levels()));
        assert!(book.levels().iter().all(|p| p % 2 == 0));
    }
}

#[test]
fn clear_empties_the_book() {
    let mut book: L2Book<3, false> = L2Book::new(1);
    book.update(6, 1, |_p| None::<u64>);
    book.update(5, 1, |_p| None::<u64>);
    book.clear();
    assert_eq!(book.levels(), &[] as &[u64]);
    book.update(8, 1, |_p| None::<u64>);
    assert_eq!(book.levels(), &[8]);
}

#[test]
fn delete_of_worst_level_queries_with_that_price() {
    let mut book: L2Book<2, false> = L2Book::new(1);
    book.update(4, 1, |_p| None::<u64>);
    book.update(3, 1, |_p| None::<u64>);
    book.update(4, 0, |old_worst| {
        assert_eq!(old_worst, 4);
        Some(8)
    });
    assert_eq!(book.levels(), &[3, 8]);
}
