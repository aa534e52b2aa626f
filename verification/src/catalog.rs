//! The catalog: currencies by code, and accounts, transaction drafts and
//! transactions in dense slot maps. It is changed by applying changes to it.
use crate::changes::BookChange;
use crate::currency::Currency;
use crate::entities::account::Entity as Account;
use crate::entities::transaction::Entity as Transaction;
use crate::entities::transaction_draft::Entity as TransactionDraft;
use crate::entities::move_::Entity as Move;
use slotmap::{DefaultKey, DenseSlotMap};
use vstd::hash_map::StringHashMap;
use vstd::multiset::Multiset;
use vstd::prelude::*;

verus! {

/// A dense slot map of `slotmap` under its default keys. Nothing is known of
/// its inside: what it holds goes by the names below.
#[verifier::external_body]
#[verifier::reject_recursive_types(V)]
pub struct Slots<V> {
    inner: DenseSlotMap<DefaultKey, V>,
}

/// The accounts that a slot map holds, each by its name. A slot map keeps
/// its values in no stated order, so this is a multiset.
pub uninterp spec fn account_slots(slots: Slots<Account>) -> Multiset<Seq<char>>;

/// The transaction drafts that a slot map holds, each by its moves.
pub uninterp spec fn draft_slots(slots: Slots<TransactionDraft>) -> Multiset<
    Seq<Move>,
>;

/// The transactions that a slot map holds, each by its moves.
pub uninterp spec fn transaction_slots(slots: Slots<Transaction>) -> Multiset<
    Seq<Move>,
>;

/// The most values that a dense slot map takes: `insert` panics on a map
/// that holds this many.
pub const SLOT_LIMIT: usize = 0xffff_fffe;

/// `DenseSlotMap::with_key`: a new slot map for accounts. It holds nothing.
#[verifier::external_body]
fn new_account_slots() -> (slots: Slots<Account>)
    ensures
        account_slots(slots) == Multiset::<Seq<char>>::empty(),
{
    Slots { inner: DenseSlotMap::with_key() }
}

/// `DenseSlotMap::with_key`: a new slot map for transaction drafts. It holds nothing.
#[verifier::external_body]
fn new_draft_slots() -> (slots: Slots<TransactionDraft>)
    ensures
        draft_slots(slots) == Multiset::<Seq<Move>>::empty(),
{
    Slots { inner: DenseSlotMap::with_key() }
}

/// `DenseSlotMap::with_key`: a new slot map for transactions. It holds nothing.
#[verifier::external_body]
fn new_transaction_slots() -> (slots: Slots<Transaction>)
    ensures
        transaction_slots(slots) == Multiset::<Seq<Move>>::empty(),
{
    Slots { inner: DenseSlotMap::with_key() }
}

/// `DenseSlotMap::len` on accounts: the number of values held.
#[verifier::external_body]
fn account_slots_len(slots: &Slots<Account>) -> (len: usize)
    ensures
        len == account_slots(*slots).len(),
{
    slots.inner.len()
}

/// `DenseSlotMap::len` on transaction drafts: the number of values held.
#[verifier::external_body]
fn draft_slots_len(slots: &Slots<TransactionDraft>) -> (len: usize)
    ensures
        len == draft_slots(*slots).len(),
{
    slots.inner.len()
}

/// `DenseSlotMap::len` on transactions: the number of values held.
#[verifier::external_body]
fn transaction_slots_len(slots: &Slots<Transaction>) -> (len: usize)
    ensures
        len == transaction_slots(*slots).len(),
{
    slots.inner.len()
}

/// `DenseSlotMap::insert`: the map holds one value more, the one given, and
/// what it held stays. It panics on a full map, which is left out here.
#[verifier::external_body]
fn insert_account_slot(slots: &mut Slots<Account>, account: Account) -> (key:
    DefaultKey)
    requires
        account_slots(*old(slots)).len() < SLOT_LIMIT,
    ensures
        account_slots(*final(slots)) == account_slots(*old(slots)).insert(account@),
{
    slots.inner.insert(account)
}

/// `DenseSlotMap::values_as_slice`: the values held, all of them, each once.
#[verifier::external_body]
fn account_slot_values(slots: &Slots<Account>) -> (values: &[Account])
    ensures
        values@.map_values(|account: Account| account@).to_multiset() == account_slots(*slots),
{
    slots.inner.values_as_slice()
}

/// Why a change could not be applied.
#[derive(Debug)]
pub enum ChangeApplicationFailure {
    /// The catalog already has a currency under this alphabetic code.
    CurrencyAlreadyExists(String),
}

/// A catalog.
pub struct Book {
    currencies: StringHashMap<Currency>,
    transaction_drafts: Slots<TransactionDraft>,
    transactions: Slots<Transaction>,
    accounts: Slots<Account>,
}

impl Book {
    /// The currencies, each under its alphabetic code.
    pub closed spec fn currencies(&self) -> Map<Seq<char>, Currency> {
        self.currencies@
    }

    /// The accounts, each by its name.
    pub closed spec fn accounts(&self) -> Multiset<Seq<char>> {
        account_slots(self.accounts)
    }

    /// The transaction drafts, each by its moves.
    pub closed spec fn transaction_drafts(&self) -> Multiset<Seq<Move>> {
        draft_slots(self.transaction_drafts)
    }

    /// The transactions, each by its moves.
    pub closed spec fn transactions(&self) -> Multiset<Seq<Move>> {
        transaction_slots(self.transactions)
    }

    /// Every currency is filed under its own alphabetic code.
    pub open spec fn wf(&self) -> bool {
        forall|code: Seq<char>| #[trigger]
            self.currencies().contains_key(code) ==> self.currencies()[code].iso_alpha_code@
                == code
    }

    /// The empty catalog.
    pub fn new() -> (book: Book)
        ensures
            book.wf(),
            book.currencies() == Map::<Seq<char>, Currency>::empty(),
            book.accounts() == Multiset::<Seq<char>>::empty(),
            book.transaction_drafts() == Multiset::<Seq<Move>>::empty(),
            book.transactions() == Multiset::<Seq<Move>>::empty(),
    {
        Book {
            currencies: StringHashMap::new(),
            transaction_drafts: new_draft_slots(),
            transactions: new_transaction_slots(),
            accounts: new_account_slots(),
        }
    }

    /// Applies `change` to the catalog: what comes of it is what the change
    /// says of itself.
    pub fn apply<C: BookChange>(&mut self, change: C) -> (result: Result<
        (),
        ChangeApplicationFailure,
    >)
        requires
            old(self).wf(),
            change.applies_to(old(self)),
        ensures
            final(self).wf(),
            change.effect(old(self), final(self), result),
    {
        change.apply(self)
    }

    /// Whether the catalog has a currency under `code`.
    pub fn has_currency(&self, code: &str) -> (found: bool)
        ensures
            found == self.currencies().contains_key(code@),
    {
        self.currencies.contains_key(code)
    }

    /// The currency under `code`, if there is one.
    pub fn currency(&self, code: &str) -> (found: Option<&Currency>)
        ensures
            found is Some <==> self.currencies().contains_key(code@),
            found matches Some(currency) ==> *currency == self.currencies()[code@],
    {
        self.currencies.get(code)
    }

    /// How many currencies the catalog has.
    pub fn currency_count(&self) -> (count: usize)
        ensures
            count == self.currencies().len(),
    {
        self.currencies.len()
    }

    /// Files `currency` under its alphabetic code, which must be free.
    pub fn file_currency(&mut self, currency: Currency)
        requires
            old(self).wf(),
            !old(self).currencies().contains_key(currency.iso_alpha_code@),
        ensures
            final(self).wf(),
            final(self).currencies() == old(self).currencies().insert(
                currency.iso_alpha_code@,
                currency,
            ),
            final(self).accounts() == old(self).accounts(),
            final(self).transaction_drafts() == old(self).transaction_drafts(),
            final(self).transactions() == old(self).transactions(),
    {
        let code = currency.iso_alpha_code.clone();
        self.currencies.insert(code, currency);
    }

    /// How many accounts the catalog has.
    pub fn account_count(&self) -> (count: usize)
        ensures
            count == self.accounts().len(),
    {
        account_slots_len(&self.accounts)
    }

    /// How many transaction drafts the catalog has.
    pub fn transaction_draft_count(&self) -> (count: usize)
        ensures
            count == self.transaction_drafts().len(),
    {
        draft_slots_len(&self.transaction_drafts)
    }

    /// How many transactions the catalog has.
    pub fn transaction_count(&self) -> (count: usize)
        ensures
            count == self.transactions().len(),
    {
        transaction_slots_len(&self.transactions)
    }

    /// The accounts of the catalog, all of them, each once.
    pub fn account_list(&self) -> (accounts: &[Account])
        ensures
            accounts@.map_values(|account: Account| account@).to_multiset() == self.accounts(),
    {
        account_slot_values(&self.accounts)
    }

    /// Takes `account` into the catalog. A catalog takes no more than
    /// `SLOT_LIMIT` accounts.
    pub fn file_account(&mut self, account: Account)
        requires
            old(self).accounts().len() < SLOT_LIMIT,
        ensures
            final(self).accounts() == old(self).accounts().insert(account@),
            final(self).currencies() == old(self).currencies(),
            final(self).transaction_drafts() == old(self).transaction_drafts(),
            final(self).transactions() == old(self).transactions(),
    {
        insert_account_slot(&mut self.accounts, account);
    }
}

} // verus!
