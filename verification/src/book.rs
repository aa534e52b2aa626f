//! The book: the entry point of a ledger.
use crate::account::Account;
use crate::index::Index;
use crate::key::{AccountKey, MoveKey, RegistryId, UnitKey};
use crate::metadata::Metadata;
use crate::move_::Move;
use crate::sum::Sum;
use crate::unit::Unit;
use vstd::prelude::*;
use vstd::std_specs::cmp::PartialEqSpec;

verus! {

/// A book owns a registry and, through it, every account, unit and move that
/// was created in the book. What it hands out are keys; a key stays good for
/// comparing and for naming its entity after the book is gone.
pub struct Book<T: Metadata> {
    meta: T::Book,
    index: Index<T>,
}

impl<T: Metadata> Book<T> {
    /// The identifier of the book's registry.
    pub closed spec fn registry(&self) -> RegistryId {
        self.index.spec_id()
    }

    /// The book's own payload.
    pub closed spec fn metadata(&self) -> T::Book {
        self.meta
    }

    /// The book's accounts, in the order of their ids.
    pub closed spec fn accounts(&self) -> Seq<Account<T>> {
        self.index.accounts()
    }

    /// The book's units, in the order of their ids.
    pub closed spec fn units(&self) -> Seq<Unit<T>> {
        self.index.units()
    }

    /// The book's moves, in the order of their ids.
    pub closed spec fn moves(&self) -> Seq<Move<T>> {
        self.index.moves()
    }

    /// The book's registry is well formed: ids are dense and name it.
    pub closed spec fn wf(&self) -> bool {
        self.index.wf()
    }

    /// A new book with payload `meta` over a fresh, empty registry that is
    /// identified by `registry`.
    pub fn new(meta: T::Book, registry: RegistryId) -> (book: Book<T>)
        ensures
            book.wf(),
            book.registry() == registry,
            book.metadata() == meta,
            book.accounts() == Seq::<Account<T>>::empty(),
            book.units() == Seq::<Unit<T>>::empty(),
            book.moves() == Seq::<Move<T>>::empty(),
    {
        Book { meta, index: Index::new(registry) }
    }

    /// Creates an account in the book and hands back its key.
    pub fn new_account(&mut self, meta: T::Account) -> (key: AccountKey)
        requires
            old(self).wf(),
        ensures
            final(self).wf(),
            key.registry == old(self).registry(),
            key.id == old(self).accounts().len(),
            final(self).accounts() == old(self).accounts().push(Account::made(key, meta)),
            final(self).units() == old(self).units(),
            final(self).moves() == old(self).moves(),
            final(self).registry() == old(self).registry(),
            final(self).metadata() == old(self).metadata(),
    {
        let key = AccountKey { registry: self.index.id(), id: self.index.next_account_id() };
        self.index.register_account(Account::create(key, meta));
        key
    }

    /// Creates a unit in the book and hands back its key.
    pub fn new_unit(&mut self, meta: T::Unit) -> (key: UnitKey)
        requires
            old(self).wf(),
        ensures
            final(self).wf(),
            key.registry == old(self).registry(),
            key.id == old(self).units().len(),
            final(self).units() == old(self).units().push(Unit::made(key, meta)),
            final(self).accounts() == old(self).accounts(),
            final(self).moves() == old(self).moves(),
            final(self).registry() == old(self).registry(),
            final(self).metadata() == old(self).metadata(),
    {
        let key = UnitKey { registry: self.index.id(), id: self.index.next_unit_id() };
        self.index.register_unit(Unit::create(key, meta));
        key
    }

    /// Creates a move of `sum` from `from` to `to` in the book and hands back
    /// its key. Nothing is asked of the accounts or of the sum: they may
    /// belong to another book, be one and the same account, or amount to zero.
    pub fn new_move(&mut self, from: AccountKey, to: AccountKey, sum: &Sum, meta: T::Move) -> (key:
        MoveKey)
        requires
            old(self).wf(),
        ensures
            final(self).wf(),
            key.registry == old(self).registry(),
            key.id == old(self).moves().len(),
            final(self).moves().len() == old(self).moves().len() + 1,
            final(self).moves().drop_last() == old(self).moves(),
            final(self).moves().last().is_made_of(key, from, to, sum@, meta),
            final(self).accounts() == old(self).accounts(),
            final(self).units() == old(self).units(),
            final(self).registry() == old(self).registry(),
            final(self).metadata() == old(self).metadata(),
    {
        let key = MoveKey { registry: self.index.id(), id: self.index.next_move_id() };
        self.index.register_move(Move::create(key, from, to, sum.clone(), meta));
        assert(self.moves().drop_last() =~= old(self).moves());
        key
    }

    /// The book's own payload.
    pub fn get_metadata(&self) -> (meta: &T::Book)
        ensures
            *meta == self.metadata(),
    {
        &self.meta
    }

    /// Replaces the book's own payload; the registry stays as it is.
    pub fn set_metadata(&mut self, meta: T::Book)
        ensures
            final(self).metadata() == meta,
            final(self).registry() == old(self).registry(),
            final(self).accounts() == old(self).accounts(),
            final(self).units() == old(self).units(),
            final(self).moves() == old(self).moves(),
            final(self).wf() == old(self).wf(),
    {
        self.meta = meta;
    }

    /// The identifier of the book's registry.
    pub fn registry_id(&self) -> (id: RegistryId)
        ensures
            id == self.registry(),
    {
        self.index.id()
    }

    /// The book's debug text: its registry and nothing else.
    pub fn debug_text(&self) -> (text: String)
        ensures
            text@ == crate::text::book_text(self.registry() as nat),
    {
        crate::text::book_debug_text(self.index.id())
    }

    /// How many accounts the book has.
    pub fn account_count(&self) -> (count: usize)
        ensures
            count == self.accounts().len(),
    {
        self.index.next_account_id()
    }

    /// How many units the book has.
    pub fn unit_count(&self) -> (count: usize)
        ensures
            count == self.units().len(),
    {
        self.index.next_unit_id()
    }

    /// How many moves the book has.
    pub fn move_count(&self) -> (count: usize)
        ensures
            count == self.moves().len(),
    {
        self.index.next_move_id()
    }

    /// Whether `key` names an account of this book.
    pub open spec fn has_account(&self, key: AccountKey) -> bool {
        key.registry == self.registry() && key.id < self.accounts().len()
    }

    /// Whether `key` names a unit of this book.
    pub open spec fn has_unit(&self, key: UnitKey) -> bool {
        key.registry == self.registry() && key.id < self.units().len()
    }

    /// Whether `key` names a move of this book.
    pub open spec fn has_move(&self, key: MoveKey) -> bool {
        key.registry == self.registry() && key.id < self.moves().len()
    }

    /// The account that `key` names, if it is one of this book's.
    pub fn account(&self, key: AccountKey) -> (found: Option<&Account<T>>)
        ensures
            found is Some <==> self.has_account(key),
            found matches Some(account) ==> *account == self.accounts()[key.id as int],
    {
        self.index.account(key)
    }

    /// The unit that `key` names, if it is one of this book's.
    pub fn unit(&self, key: UnitKey) -> (found: Option<&Unit<T>>)
        ensures
            found is Some <==> self.has_unit(key),
            found matches Some(unit) ==> *unit == self.units()[key.id as int],
    {
        self.index.unit(key)
    }

    /// The move that `key` names, if it is one of this book's.
    pub fn move_(&self, key: MoveKey) -> (found: Option<&Move<T>>)
        ensures
            found is Some <==> self.has_move(key),
            found matches Some(move_) ==> *move_ == self.moves()[key.id as int],
    {
        self.index.move_(key)
    }

    /// Replaces the payload of the account that `key` names. Where `key`
    /// names no account of this book nothing changes, and the answer is
    /// `false`.
    pub fn set_account_metadata(&mut self, key: AccountKey, meta: T::Account) -> (done: bool)
        requires
            old(self).wf(),
        ensures
            final(self).wf(),
            done == old(self).has_account(key),
            done ==> final(self).accounts() == old(self).accounts().update(
                key.id as int,
                Account::made(key, meta),
            ),
            !done ==> final(self).accounts() == old(self).accounts(),
            final(self).units() == old(self).units(),
            final(self).moves() == old(self).moves(),
            final(self).registry() == old(self).registry(),
            final(self).metadata() == old(self).metadata(),
    {
        self.index.set_account_metadata(key, meta)
    }

    /// Replaces the payload of the unit that `key` names. Where `key` names
    /// no unit of this book nothing changes, and the answer is `false`.
    pub fn set_unit_metadata(&mut self, key: UnitKey, meta: T::Unit) -> (done: bool)
        requires
            old(self).wf(),
        ensures
            final(self).wf(),
            done == old(self).has_unit(key),
            done ==> final(self).units() == old(self).units().update(
                key.id as int,
                Unit::made(key, meta),
            ),
            !done ==> final(self).units() == old(self).units(),
            final(self).accounts() == old(self).accounts(),
            final(self).moves() == old(self).moves(),
            final(self).registry() == old(self).registry(),
            final(self).metadata() == old(self).metadata(),
    {
        self.index.set_unit_metadata(key, meta)
    }

    /// Replaces the payload of the move that `key` names; its accounts and
    /// its sum stay. Where `key` names no move of this book nothing changes,
    /// and the answer is `false`.
    pub fn set_move_metadata(&mut self, key: MoveKey, meta: T::Move) -> (done: bool)
        requires
            old(self).wf(),
        ensures
            final(self).wf(),
            done == old(self).has_move(key),
            final(self).moves().len() == old(self).moves().len(),
            forall|i: int|
                0 <= i < old(self).moves().len() && !(done && i == key.id) ==> (
                #[trigger] final(self).moves()[i]) == old(self).moves()[i],
            done ==> final(self).moves()[key.id as int].is_made_of(
                key,
                old(self).moves()[key.id as int].spec_from(),
                old(self).moves()[key.id as int].spec_to(),
                old(self).moves()[key.id as int].spec_sum(),
                meta,
            ),
            final(self).accounts() == old(self).accounts(),
            final(self).units() == old(self).units(),
            final(self).registry() == old(self).registry(),
            final(self).metadata() == old(self).metadata(),
    {
        self.index.set_move_metadata(key, meta)
    }

    /// Ends the book: the registry lets go of every account, unit and move,
    /// and the book's own payload is handed back. Keys that were handed out
    /// before stay good as values.
    pub fn close(self) -> (meta: T::Book)
        ensures
            meta == self.metadata(),
    {
        let mut book = self;
        book.index.clear();
        book.meta
    }

    /// In a well-formed book ids are dense and registry-scoped: of each kind
    /// the first entity has id 0 and each next one the next id, and every key
    /// names the book's registry. So no two entities of a kind share an id.
    pub proof fn lemma_ids_dense(&self)
        requires
            self.wf(),
        ensures
            forall|i: int|
                0 <= i < self.accounts().len() ==> (#[trigger] self.accounts()[i]).spec_key().id == i
                    && self.accounts()[i].spec_key().registry == self.registry(),
            forall|i: int|
                0 <= i < self.units().len() ==> (#[trigger] self.units()[i]).spec_key().id == i
                    && self.units()[i].spec_key().registry == self.registry(),
            forall|i: int|
                0 <= i < self.moves().len() ==> (#[trigger] self.moves()[i]).spec_key().id == i
                    && self.moves()[i].spec_key().registry == self.registry(),
    {
    }

    /// Every book equals itself; two books are equal exactly where their
    /// registries carry one identifier, whatever their payloads and whatever
    /// they hold.
    pub proof fn lemma_book_identity(&self, other: &Book<T>)
        ensures
            self.eq_spec(self),
            self.eq_spec(other) <==> self.registry() == other.registry(),
            self.eq_spec(other) <==> other.eq_spec(self),
    {
    }

    /// Two accounts of one book are equal exactly where their ids are.
    pub proof fn lemma_accounts_of_one_book(&self, i: int, j: int)
        requires
            self.wf(),
            0 <= i < self.accounts().len(),
            0 <= j < self.accounts().len(),
        ensures
            self.accounts()[i].eq_spec(&self.accounts()[j]) <==> self.accounts()[i].spec_key().id
                == self.accounts()[j].spec_key().id,
            self.accounts()[i].eq_spec(&self.accounts()[j]) <==> i == j,
    {
    }

    /// Two units of one book are equal exactly where their ids are.
    pub proof fn lemma_units_of_one_book(&self, i: int, j: int)
        requires
            self.wf(),
            0 <= i < self.units().len(),
            0 <= j < self.units().len(),
        ensures
            self.units()[i].eq_spec(&self.units()[j]) <==> self.units()[i].spec_key().id
                == self.units()[j].spec_key().id,
            self.units()[i].eq_spec(&self.units()[j]) <==> i == j,
    {
    }

    /// An account of one book and an account of a book with another
    /// registry are never equal, whatever their ids and payloads.
    pub proof fn lemma_accounts_of_two_books(&self, other: &Book<T>, i: int, j: int)
        requires
            self.wf(),
            other.wf(),
            self.registry() != other.registry(),
            0 <= i < self.accounts().len(),
            0 <= j < other.accounts().len(),
        ensures
            !self.accounts()[i].eq_spec(&other.accounts()[j]),
    {
    }

    /// A unit of one book and a unit of a book with another registry are
    /// never equal, whatever their ids and payloads.
    pub proof fn lemma_units_of_two_books(&self, other: &Book<T>, i: int, j: int)
        requires
            self.wf(),
            other.wf(),
            self.registry() != other.registry(),
            0 <= i < self.units().len(),
            0 <= j < other.units().len(),
        ensures
            !self.units()[i].eq_spec(&other.units()[j]),
    {
    }
}

impl<T: Metadata> Default for Book<T> where T::Book: Default {
    /// The book with the default payload over the empty registry 0.
    fn default() -> (book: Book<T>)
        ensures
            book.wf(),
            book.registry() == 0,
            book.accounts() == Seq::<Account<T>>::empty(),
            book.units() == Seq::<Unit<T>>::empty(),
            book.moves() == Seq::<Move<T>>::empty(),
    {
        Book::new(T::Book::default(), 0)
    }
}

impl<T: Metadata> PartialEq for Book<T> {
    /// Books are equal where their registries are: the payload does not count.
    fn eq(&self, other: &Book<T>) -> (equal: bool) {
        self.index.id() == other.index.id()
    }
}

impl<T: Metadata> vstd::std_specs::cmp::PartialEqSpecImpl for Book<T> {
    open spec fn obeys_eq_spec() -> bool {
        true
    }

    open spec fn eq_spec(&self, other: &Book<T>) -> bool {
        self.registry() == other.registry()
    }
}

} // verus!
