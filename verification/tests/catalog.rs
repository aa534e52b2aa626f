use envelope_system::catalog::{Book, ChangeApplicationFailure, SLOT_LIMIT};
use envelope_system::changes;
use envelope_system::currency::{Currency, Locale};
use envelope_system::entities;
use rusty_money::Iso;

fn plain(currency: &rusty_money::Currency) -> Currency {
    Currency {
        locale: match currency.locale {
            rusty_money::Locale::EnUs => Locale::EnUs,
            rusty_money::Locale::EnIn => Locale::EnIn,
            rusty_money::Locale::EnEu => Locale::EnEu,
            rusty_money::Locale::EnBy => Locale::EnBy,
        },
        exponent: currency.exponent,
        iso_alpha_code: currency.iso_alpha_code.to_string(),
        iso_numeric_code: currency.iso_numeric_code.to_string(),
        name: currency.name.to_string(),
        symbol: currency.symbol.to_string(),
        symbol_first: currency.symbol_first,
        minor_denomination: currency.minor_denomination,
    }
}

#[test]
fn initial_state() {
    let book = Book::new();
    assert_eq!(book.currency_count(), 0);
    assert_eq!(book.account_count(), 0);
    assert_eq!(book.transaction_draft_count(), 0);
    assert_eq!(book.transaction_count(), 0);
}

#[test]
fn change_add_currency() {
    let mut book = Book::new();
    let applied = book.apply(changes::add_currency::Change::new(changes::add_currency::Input {
        currency: plain(rusty_money::Currency::get(Iso::THB)),
    }));
    assert!(applied.is_ok());
    assert_eq!(book.currency_count(), 1);
    assert_eq!(
        *book.currency("THB").unwrap(),
        plain(rusty_money::Currency::find_by_alpha_iso(String::from("THB")).unwrap()),
    );
}

#[test]
fn change_add_account() {
    let mut book = Book::new();
    let account = entities::account::Entity::new(entities::account::Input {
        name: String::from("Wallet"),
    });
    let applied = book.apply(changes::add::Change::new(changes::add::Input { account }));
    assert!(applied.is_ok());
    assert_eq!(book.account_count(), 1);
    assert_eq!(
        *book.account_list().iter().next().unwrap(),
        entities::account::Entity::new(entities::account::Input {
            name: String::from("Wallet"),
        })
    )
}

#[test]
fn currency_is_added_once() {
    let mut book = Book::new();
    let baht = plain(rusty_money::Currency::get(Iso::THB));
    let mut other_baht = baht.clone();
    other_baht.name = String::from("Baht");
    assert!(book
        .apply(changes::add_currency::Change::new(changes::add_currency::Input { currency: baht.clone() }))
        .is_ok());
    let again = book.apply(changes::add_currency::Change::new(changes::add_currency::Input {
        currency: other_baht,
    }));
    match again {
        Err(ChangeApplicationFailure::CurrencyAlreadyExists(code)) => assert_eq!(code, "THB"),
        Ok(()) => panic!("a second currency under one code was taken"),
    }
    assert_eq!(book.currency_count(), 1);
    assert_eq!(*book.currency("THB").unwrap(), baht);
    assert!(book.has_currency("THB"));
    assert!(!book.has_currency("USD"));
    assert!(book.currency("USD").is_none());
}

#[test]
fn currencies_side_by_side() {
    let mut book = Book::new();
    for iso in [Iso::THB, Iso::USD, Iso::EUR] {
        let currency = plain(rusty_money::Currency::get(iso));
        assert!(book
            .apply(changes::add_currency::Change::new(changes::add_currency::Input { currency }))
            .is_ok());
    }
    assert_eq!(book.currency_count(), 3);
    assert_eq!(book.currency("USD").unwrap().iso_numeric_code, "840");
    assert_eq!(book.currency("EUR").unwrap().locale, Locale::EnEu);
    assert_eq!(book.account_count(), 0);
}

#[test]
fn accounts_with_one_name_are_both_kept() {
    let mut book = Book::new();
    for name in ["Wallet", "Bank", "Wallet"] {
        let account = entities::account::Entity::new(entities::account::Input {
            name: String::from(name),
        });
        assert!(book.apply(changes::add::Change::new(changes::add::Input { account })).is_ok());
    }
    assert_eq!(book.account_count(), 3);
    let mut names: Vec<&str> = book.account_list().iter().map(|account| account.name()).collect();
    names.sort();
    assert_eq!(names, vec!["Bank", "Wallet", "Wallet"]);
    assert_eq!(book.currency_count(), 0);
    assert_eq!(book.transaction_count(), 0);
    assert!(book.account_count() < SLOT_LIMIT);
}

#[test]
fn filing_without_a_change() {
    let mut book = Book::new();
    book.file_currency(plain(rusty_money::Currency::get(Iso::JPY)));
    book.file_account(entities::account::Entity::new(entities::account::Input {
        name: String::from("Cash"),
    }));
    assert_eq!(book.currency("JPY").unwrap().exponent, 0);
    assert_eq!(book.account_list()[0].name(), "Cash");
}

#[test]
fn move_carries_key_and_money() {
    let mut slots: slotmap::DenseSlotMap<slotmap::DefaultKey, u8> = slotmap::DenseSlotMap::new();
    let account_key = slots.insert(1);
    let money = rusty_money::Money::from_major(12, rusty_money::Currency::get(Iso::THB));
    let entity = entities::move_::Entity::new(entities::move_::Input {
        account_key,
        money: money.clone(),
    });
    assert_eq!(entity.account_key(), account_key);
    assert_eq!(*entity.money(), money);
}
