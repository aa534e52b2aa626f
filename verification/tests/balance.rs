use envelope_system::balance::Balance;
use envelope_system::book::Book;
use envelope_system::key::UnitKey;
use envelope_system::metadata::BlankMetadata;
use envelope_system::sum::Sum;

fn two_units() -> (UnitKey, UnitKey) {
    let mut book = Book::<BlankMetadata>::new((), 0);
    let unit_a = book.new_unit(());
    let unit_b = book.new_unit(());
    (unit_a, unit_b)
}

#[test]
fn balance_new() {
    let actual = Balance::new();
    let expected: Vec<(UnitKey, i128)> = Vec::new();
    assert_eq!(actual.entries(), expected);
    assert_eq!(actual, Balance::new());
}

#[test]
fn operation() {
    let mut actual = Balance::new();
    let (unit_a, unit_b) = two_units();
    let sum = Sum::of(unit_a, 2).unit(unit_b, 3);
    actual.operation(&sum, |balance, amount| balance + amount as i128);
    let sum = Sum::of(unit_a, 2).unit(unit_b, 3);
    actual.operation(&sum, |balance, amount| balance * amount as i128);
    assert_eq!(actual.entries(), vec![(unit_a, 4), (unit_b, 9)]);
}

#[test]
fn sub_assign_sum() {
    let (unit, _) = two_units();
    let mut actual = Balance::new();
    actual.sub_assign(&Sum::of(unit, 9));
    assert_eq!(actual.entries(), vec![(unit, -9)]);
}

#[test]
fn sub_sum() {
    let (unit, _) = two_units();
    let balance = Balance::new();
    let actual = balance - &Sum::of(unit, 9);
    assert_eq!(actual.entries(), vec![(unit, -9)]);
}

#[test]
fn add_assign_sum() {
    let (unit, _) = two_units();
    let mut actual = Balance::new();
    actual.add_assign(&Sum::of(unit, 9));
    assert_eq!(actual.entries(), vec![(unit, 9)]);
}

#[test]
fn add_sum() {
    let (unit, _) = two_units();
    let balance = Balance::new();
    let actual = balance + &Sum::of(unit, 9);
    assert_eq!(actual.entries(), vec![(unit, 9)]);
}

#[test]
fn sum_round_trip_into_empty_balance() {
    let (unit_a, unit_b) = two_units();
    let sum = Sum::of(unit_a, 2).unit(unit_b, 3);
    let balance = Balance::new() + &sum;
    assert_eq!(balance.entries(), vec![(unit_a, 2), (unit_b, 3)]);
    assert_eq!(balance.total_of(unit_a), 2);
    assert_eq!(balance.total_of(unit_b), 3);
}

#[test]
fn sum_accumulates_repeated_unit() {
    let (unit_a, unit_b) = two_units();
    let sum = Sum::of(unit_a, 2).unit(unit_b, 3).unit(unit_a, 5);
    assert_eq!(sum.entries(), vec![(unit_a, 7), (unit_b, 3)]);
    assert_eq!(sum.amount_of(unit_a), 7);
    assert!(sum.contains(unit_b));
}

#[test]
fn sum_names_only_its_units() {
    let (unit_a, unit_b) = two_units();
    let sum = Sum::of(unit_a, 0);
    assert!(sum.contains(unit_a));
    assert!(!sum.contains(unit_b));
    assert_eq!(sum.amount_of(unit_b), 0);
    assert_eq!(sum.clone().entries(), vec![(unit_a, 0)]);
}

#[test]
fn two_sums_in_either_order() {
    let (unit_a, unit_b) = two_units();
    let first = Sum::of(unit_a, 2).unit(unit_b, 3);
    let second = Sum::of(unit_a, 10);
    let one_way = (Balance::new() + &first) + &second;
    let other_way = Balance::new() + &second + &first;
    assert_eq!(one_way, other_way);
    assert_eq!(one_way.entries(), vec![(unit_a, 12), (unit_b, 3)]);
}

#[test]
fn sub_after_add_keeps_unit_at_zero() {
    let (unit_a, unit_b) = two_units();
    let sum = Sum::of(unit_a, 4);
    let balance = Balance::new() + &sum - &sum;
    assert!(balance.contains(unit_a));
    assert!(!balance.contains(unit_b));
    assert_eq!(balance.entries(), vec![(unit_a, 0)]);
    assert_ne!(balance, Balance::new());
}

#[test]
fn balance_equality_is_by_entries() {
    let (unit_a, unit_b) = two_units();
    let left = Balance::new() + &Sum::of(unit_a, 1);
    let right = Balance::new() + &Sum::of(unit_b, 1);
    assert_ne!(left, right);
    assert_eq!(left.clone(), left);
    let higher = Balance::new() + &Sum::of(unit_a, 2);
    assert_ne!(left, higher);
}

#[test]
fn entries_follow_registry_then_id() {
    let mut first = Book::<BlankMetadata>::new((), 1);
    let mut second = Book::<BlankMetadata>::new((), 2);
    let late = second.new_unit(());
    let early_a = first.new_unit(());
    let early_b = first.new_unit(());
    let sum = Sum::of(late, 1).unit(early_b, 2).unit(early_a, 3);
    assert_eq!(sum.entries(), vec![(early_a, 3), (early_b, 2), (late, 1)]);
}

#[test]
fn limits_of_the_accumulator() {
    let (unit, _) = two_units();
    let mut top = Balance::new();
    top.operation(&Sum::of(unit, 0), |_, _| i128::MAX);
    assert!(!top.can_add(&Sum::of(unit, 1)));
    assert!(top.can_add(&Sum::of(unit, 0)));
    assert!(top.can_sub(&Sum::of(unit, u64::MAX)));
    let mut bottom = Balance::new();
    bottom.operation(&Sum::of(unit, 0), |_, _| i128::MIN);
    assert!(!bottom.can_sub(&Sum::of(unit, 1)));
    assert!(bottom.can_add(&Sum::of(unit, u64::MAX)));
    let wide = Balance::new() + &Sum::of(unit, u64::MAX);
    assert_eq!(wide.total_of(unit), 18446744073709551615i128);
}

#[test]
fn balance_fmt_debug() {
    let mut book = Book::<BlankMetadata>::new((), 0);
    let unit_a = book.new_unit(());
    let amount_a = 76;
    let unit_b = book.new_unit(());
    let amount_b = 45;
    let sum = Sum::of(unit_a, amount_a).unit(unit_b, amount_b);
    let balance = Balance::new() + &sum;
    let actual = balance.debug_text();
    let expected = format!(
        "Balance({{{}: {:?}, {}: {:?}}})",
        unit_a.debug_text(),
        amount_a,
        unit_b.debug_text(),
        amount_b
    );
    assert_eq!(actual, expected);
    assert_eq!(actual, "Balance({Unit { id: 0 }: 76, Unit { id: 1 }: 45})");
}

#[test]
fn balance_text_of_edge_values() {
    let (unit, other) = two_units();
    assert_eq!(Balance::new().debug_text(), "Balance({})");
    let below = Balance::new() - &Sum::of(unit, 9);
    assert_eq!(below.debug_text(), "Balance({Unit { id: 0 }: -9})");
    let mut lowest = Balance::new();
    lowest.operation(&Sum::of(other, 0), |_, _| i128::MIN);
    assert_eq!(
        lowest.debug_text(),
        "Balance({Unit { id: 1 }: -170141183460469231731687303715884105728})"
    );
    let mut highest = Balance::new();
    highest.operation(&Sum::of(unit, 0).unit(other, 0), |_, amount| i128::MAX - amount as i128);
    assert_eq!(
        highest.debug_text(),
        format!("Balance({{Unit {{ id: 0 }}: {}, Unit {{ id: 1 }}: {}}})", i128::MAX, i128::MAX)
    );
}
