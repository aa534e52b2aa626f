//! Moves of a catalog: money taken out of an account or put into it.
use slotmap::DefaultKey;
use vstd::prelude::*;

verus! {

/// A slot key as `slotmap` hands them out. Nothing is known of its inside.
#[verifier::external_type_specification]
#[verifier::external_body]
pub struct ExDefaultKey(slotmap::DefaultKey);

/// An amount of money in a currency, as `rusty_money` holds it. Nothing is
/// known of its inside: a move carries it and hands it back.
#[verifier::external_type_specification]
#[verifier::external_body]
pub struct ExMoney(rusty_money::Money);

/// Money taken out of an account or put into it. Several moves make up a
/// transaction.
pub struct Entity {
    account_key: DefaultKey,
    money: rusty_money::Money,
}

/// What a move is created from.
pub struct Input {
    pub account_key: DefaultKey,
    pub money: rusty_money::Money,
}

impl Entity {
    /// The key of the account that the move touches.
    pub closed spec fn spec_account_key(&self) -> DefaultKey {
        self.account_key
    }

    /// The money that the move carries.
    pub closed spec fn spec_money(&self) -> rusty_money::Money {
        self.money
    }

    /// The move on the account and with the money that `input` names.
    pub fn new(input: Input) -> (entity: Entity)
        ensures
            entity.spec_account_key() == input.account_key,
            entity.spec_money() == input.money,
    {
        let Input { account_key, money } = input;
        Entity { account_key, money }
    }

    /// The key of the account that the move touches.
    pub fn account_key(&self) -> (key: DefaultKey)
        ensures
            key == self.spec_account_key(),
    {
        self.account_key
    }

    /// The money that the move carries.
    pub fn money(&self) -> (money: &rusty_money::Money)
        ensures
            *money == self.spec_money(),
    {
        &self.money
    }
}

} // verus!
