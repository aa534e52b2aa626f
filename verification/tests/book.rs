use envelope_system::book::Book;
use envelope_system::key::{AccountKey, MoveKey, Registrar, UnitKey};
use envelope_system::metadata::BlankMetadata;
use envelope_system::move_::Move;
use envelope_system::sum::Sum;

#[test]
fn book_new() {
    let mut registrar = Registrar::new();
    let book = Book::<(u8, (), (), ())>::new(77, registrar.issue().unwrap());
    assert_eq!(*book.get_metadata(), 77);
    assert!(book != Book::new(77, registrar.issue().unwrap()));
}

#[test]
fn new_account() {
    let mut book = Book::<BlankMetadata>::new((), 0);
    let account_a = book.new_account(());
    let account_b = book.new_account(());
    assert_eq!(book.account_count(), 2);
    assert!(book.account(account_a).unwrap().key() == account_a);
    assert!(book.account(account_b).unwrap().key() == account_b);
    assert_ne!(account_a, account_b);
}

#[test]
fn new_unit() {
    let mut book = Book::<BlankMetadata>::new((), 0);
    let unit_a = book.new_unit(());
    let unit_b = book.new_unit(());
    assert_eq!(book.unit_count(), 2);
    assert!(book.unit(unit_a).unwrap().key() == unit_a);
    assert!(book.unit(unit_b).unwrap().key() == unit_b);
    assert_ne!(unit_a, unit_b);
}

#[test]
fn drop() {
    let mut book = Book::<BlankMetadata>::new((), 0);
    let account_a = book.new_account(());
    let account_b = book.new_account(());
    let unit = book.new_unit(());
    let move_ = Move::new(&mut book, account_a, account_b, &Sum::of(unit, 0), ());
    assert_eq!(book.account_count(), 2);
    assert_eq!(book.unit_count(), 1);
    assert_eq!(book.move_count(), 1);
    let held = book.move_(move_).unwrap();
    let (from, to, sum) = (held.from(), held.to(), held.sum().clone());
    book.close();
    assert_eq!(from, account_a);
    assert_eq!(to, account_b);
    assert_eq!(sum.entries(), vec![(unit, 0)]);
    assert_eq!(move_, MoveKey { registry: 0, id: 0 });
}

#[test]
fn partial_eq() {
    let a = Book::<(u8, (), (), ())>::new(0, 0);
    let b = Book::<(u8, (), (), ())>::new(0, 0);
    assert!(a == b, "All fields equal");
    let c = Book::<(u8, (), (), ())>::new(1, 0);
    assert!(a == c, "Same index, some different field");
    let d = Book::<(u8, (), (), ())>::new(0, 1);
    assert!(a != d, "Only id different");
}

#[test]
fn book_metadata() {
    let mut book = Book::<(u8, (), (), ())>::new(3, 0);
    assert_eq!(*book.get_metadata(), 3);
    book.set_metadata(20);
    assert_eq!(*book.get_metadata(), 20);
    book.set_metadata(9);
    assert_eq!(*book.get_metadata(), 9);
}

#[test]
fn ids_are_dense_per_kind() {
    let mut book = Book::<BlankMetadata>::new((), 5);
    let accounts: Vec<AccountKey> = (0..3).map(|_| book.new_account(())).collect();
    let units: Vec<UnitKey> = (0..2).map(|_| book.new_unit(())).collect();
    for (i, key) in accounts.iter().enumerate() {
        assert_eq!(*key, AccountKey { registry: 5, id: i });
    }
    for (i, key) in units.iter().enumerate() {
        assert_eq!(*key, UnitKey { registry: 5, id: i });
    }
    let first = book.new_move(accounts[0], accounts[1], &Sum::of(units[0], 1), ());
    let second = book.new_move(accounts[1], accounts[0], &Sum::of(units[1], 1), ());
    assert_eq!(first, MoveKey { registry: 5, id: 0 });
    assert_eq!(second, MoveKey { registry: 5, id: 1 });
    assert_eq!(book.registry_id(), 5);
}

#[test]
fn entities_of_two_books_differ() {
    let mut registrar = Registrar::new();
    let mut one = Book::<((), u8, u8, ())>::new((), registrar.issue().unwrap());
    let mut other = Book::<((), u8, u8, ())>::new((), registrar.issue().unwrap());
    let account_one = one.new_account(1);
    let account_other = other.new_account(1);
    assert_eq!(account_one.id, account_other.id);
    assert_ne!(account_one, account_other);
    assert!(one.account(account_one).unwrap() != other.account(account_other).unwrap());
    let unit_one = one.new_unit(1);
    let unit_other = other.new_unit(1);
    assert_ne!(unit_one, unit_other);
    assert!(one.unit(unit_one).unwrap() != other.unit(unit_other).unwrap());
    assert!(one.account(account_other).is_none());
    assert!(other.unit(unit_one).is_none());
}

#[test]
fn entities_of_one_book_compare_by_id() {
    let mut book = Book::<((), u8, u8, ())>::new((), 0);
    let a = book.new_account(7);
    let b = book.new_account(7);
    assert!(book.account(a).unwrap() == book.account(a).unwrap());
    assert!(book.account(a).unwrap() != book.account(b).unwrap());
    assert!(a < b);
    let u = book.new_unit(7);
    let v = book.new_unit(7);
    assert!(book.unit(u).unwrap() != book.unit(v).unwrap());
    assert!(u < v);
}

#[test]
fn registrar_issues_each_identifier_once() {
    let mut registrar = Registrar::new();
    assert_eq!(registrar.issue(), Some(0));
    assert_eq!(registrar.issue(), Some(1));
    assert_eq!(registrar.issue(), Some(2));
}

#[test]
fn entity_metadata_through_the_book() {
    let mut book = Book::<((), u8, u8, u8)>::new((), 0);
    let account = book.new_account(1);
    let unit = book.new_unit(2);
    let move_ = book.new_move(account, account, &Sum::of(unit, 6), 3);
    assert_eq!(*book.account(account).unwrap().get_metadata(), 1);
    assert!(book.set_account_metadata(account, 10));
    assert_eq!(*book.account(account).unwrap().get_metadata(), 10);
    assert!(book.set_unit_metadata(unit, 20));
    assert_eq!(*book.unit(unit).unwrap().get_metadata(), 20);
    assert!(book.set_move_metadata(move_, 30));
    let held = book.move_(move_).unwrap();
    assert_eq!(*held.get_metadata(), 30);
    assert_eq!(held.sum().entries(), vec![(unit, 6)]);
    assert_eq!(held.from(), account);
    assert_eq!(held.id(), 0);
    let stranger = AccountKey { registry: 9, id: 0 };
    assert!(!book.set_account_metadata(stranger, 5));
    assert!(!book.set_unit_metadata(UnitKey { registry: 0, id: 1 }, 5));
    assert!(!book.set_move_metadata(MoveKey { registry: 0, id: 1 }, 5));
    assert_eq!(*book.account(account).unwrap().get_metadata(), 10);
}

#[test]
fn moves_across_books_are_taken() {
    let mut one = Book::<BlankMetadata>::new((), 0);
    let mut other = Book::<BlankMetadata>::new((), 1);
    let here = one.new_account(());
    let there = other.new_account(());
    let unit = other.new_unit(());
    let key = Move::new(&mut one, here, there, &Sum::of(unit, 0), ());
    let held = one.move_(key).unwrap();
    assert_eq!(held.to(), there);
    assert_eq!(held.key(), key);
    assert_eq!(other.move_count(), 0);
}

#[test]
fn end_to_end_keys_outlive_the_book() {
    let mut book = Book::<BlankMetadata>::new((), 0);
    let unit_a = book.new_unit(());
    let unit_b = book.new_unit(());
    let account_x = book.new_account(());
    let account_y = book.new_account(());
    let sum = Sum::of(unit_a, 2).unit(unit_b, 3);
    let key = Move::new(&mut book, account_x, account_y, &sum, ());
    let held = book.move_(key).unwrap();
    let kept = (held.from(), held.to(), held.sum().clone());
    std::mem::drop(book);
    assert_eq!(kept.0, account_x);
    assert_eq!(kept.1, account_y);
    assert_eq!(kept.2.entries(), vec![(unit_a, 2), (unit_b, 3)]);
    std::mem::drop(kept);
    assert_eq!(unit_a, UnitKey { registry: 0, id: 0 });
    assert_eq!(unit_b, UnitKey { registry: 0, id: 1 });
    assert_eq!(account_x, AccountKey { registry: 0, id: 0 });
    assert_eq!(account_y, AccountKey { registry: 0, id: 1 });
}

#[test]
fn book_fmt_debug() {
    let book = Book::<BlankMetadata>::default();
    let actual = book.debug_text();
    let expected = format!("Book {{ index: {} }}", envelope_system::text::entity_debug_text("Index", 0));
    assert_eq!(actual, expected);
    assert_eq!(actual, "Book { index: Index { id: 0 } }");
    let far = Book::<BlankMetadata>::new((), u64::MAX);
    assert_eq!(far.debug_text(), "Book { index: Index { id: 18446744073709551615 } }");
}

#[test]
fn keys_are_ordered_by_registry_then_id() {
    let mut low = Book::<BlankMetadata>::new((), 1);
    let mut high = Book::<BlankMetadata>::new((), 2);
    let high_first = high.new_unit(());
    let low_first = low.new_unit(());
    let low_second = low.new_unit(());
    assert!(low_first < low_second);
    assert!(low_second < high_first);
    assert!(high_first > low_first);
    assert!(low_first <= low_first);
    let mut keys = vec![high_first, low_second, low_first];
    keys.sort();
    assert_eq!(keys, vec![low_first, low_second, high_first]);
    let account_low = low.new_account(());
    let account_high = high.new_account(());
    assert!(account_low < account_high);
    let move_low = low.new_move(account_low, account_high, &Sum::of(low_first, 1), ());
    let move_high = high.new_move(account_high, account_low, &Sum::of(low_first, 1), ());
    assert!(move_low < move_high);
}

#[test]
fn default_book_is_empty() {
    let book = Book::<(u8, (), (), ())>::default();
    assert_eq!(*book.get_metadata(), 0);
    assert_eq!(book.registry_id(), 0);
    assert_eq!(book.account_count(), 0);
    assert_eq!(book.unit_count(), 0);
    assert_eq!(book.move_count(), 0);
}
