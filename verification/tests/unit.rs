use envelope_system::account::Account;
use envelope_system::book::Book;
use envelope_system::metadata::BlankMetadata;
use envelope_system::unit::Unit;

#[test]
fn unit_new() {
    let mut book = Book::<((), (), u8, ())>::new((), 0);
    let unit_a = Unit::new(&mut book, 50);
    assert_eq!(unit_a.id, 0);
    assert_eq!(unit_a.registry, book.registry_id());
    assert_eq!(*book.unit(unit_a).unwrap().get_metadata(), 50);
    let unit_b = Unit::new(&mut book, 40);
    assert_eq!(unit_b.id, 1);
    assert_eq!(unit_b.registry, book.registry_id());
    assert_eq!(*book.unit(unit_b).unwrap().get_metadata(), 40);
    assert_eq!(book.unit_count(), 2);
    assert_eq!(book.unit(unit_a).unwrap().id(), 0);
    assert_eq!(book.unit(unit_b).unwrap().id(), 1);
}

#[test]
fn unit_metadata() {
    let mut book = Book::<((), (), u8, ())>::new((), 0);
    let unit = Unit::new(&mut book, 3);
    assert_eq!(*book.unit(unit).unwrap().get_metadata(), 3);
    assert!(book.set_unit_metadata(unit, 9));
    assert_eq!(*book.unit(unit).unwrap().get_metadata(), 9);
}

#[test]
fn account_new() {
    let mut book = Book::<((), u8, (), ())>::new((), 4);
    let account = Account::new(&mut book, 8);
    assert_eq!(account.id, 0);
    assert_eq!(account.registry, 4);
    assert_eq!(*book.account(account).unwrap().get_metadata(), 8);
    assert_eq!(book.account(account).unwrap().id(), 0);
}

#[test]
fn unit_fmt_debug() {
    let mut book = Book::<BlankMetadata>::new((), 0);
    let unit = Unit::new(&mut book, ());
    let actual = unit.debug_text();
    let expected = "Unit { id: 0 }";
    assert_eq!(actual, expected);
    let unit = Unit::new(&mut book, ());
    let actual = unit.debug_text();
    let expected = "Unit { id: 1 }";
    assert_eq!(actual, expected);
    assert_eq!(book.unit(unit).unwrap().debug_text(), expected);
}

#[test]
fn entity_texts_show_the_id_only() {
    let mut book = Book::<((), u8, u8, u8)>::new((), 3);
    let mut account = book.new_account(200);
    for _ in 0..10 {
        account = book.new_account(200);
    }
    assert_eq!(account.debug_text(), "Account { id: 10 }");
    assert_eq!(book.account(account).unwrap().debug_text(), "Account { id: 10 }");
    let unit = book.new_unit(9);
    let key = book.new_move(account, account, &envelope_system::sum::Sum::of(unit, 1), 9);
    assert_eq!(key.debug_text(), "Move { id: 0 }");
    assert_eq!(book.move_(key).unwrap().debug_text(), "Move { id: 0 }");
}
