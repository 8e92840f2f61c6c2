//! The command that pushes one price observation, and the capability it
//! pushes through.

use vstd::prelude::*;
use vstd::string::to_string_from_display_ensures;
use miden_objects::accounts::AccountId;
use crate::data::{OracleData, OracleDataView};

verus! {

/// The capability to push a record to the account that an identifier names.
///
/// An implementation owns the whole of a push: it reaches the ledger, and it
/// may say by `pushed` what a push does to it and returns. Nothing is known
/// here of any implementation but that each push it makes is one that its own
/// `pushed` allows.
pub trait OracleDataPusher: Sized {
    /// The error of a push that failed.
    type Error: core::fmt::Display;

    /// Whether a push of `data` to the account `account_id`, made on `before`,
    /// may leave `after` and return `outcome`. An implementation that does not
    /// say allows every push.
    open spec fn pushed(
        before: Self,
        account_id: AccountId,
        data: OracleDataView,
        after: Self,
        outcome: Result<(), Self::Error>,
    ) -> bool {
        true
    }

    /// Pushes `data` to the account that `account_id` names, once.
    fn push_oracle_data(&mut self, account_id: &AccountId, data: OracleData) -> (outcome: Result<
        (),
        Self::Error,
    >)
        ensures
            Self::pushed(*old(self), *account_id, data@, *final(self), outcome),
    ;
}

/// What the command says once the push has succeeded.
pub const CONFIRMATION: &'static str = "Data pushed to oracle account successfully!";

/// Whether `report` is what the command returns for a push that ended in
/// `outcome`: the confirmation for a success, and for a failure the error
/// as its `Display` writes it.
pub open spec fn reports<E: core::fmt::Display>(
    outcome: Result<(), E>,
    report: Result<String, String>,
) -> bool {
    match outcome {
        Ok(()) => report matches Ok(text) && text@ == CONFIRMATION@,
        Err(error) => report matches Err(text) && to_string_from_display_ensures::<E>(&error, text),
    }
}

/// The fields of one push: the account to push to and the four parts of the
/// price observation.
#[derive(Debug)]
pub struct PushDataCmd {
    account_id: AccountId,
    asset_pair: String,
    price: u64,
    decimals: u64,
    publisher_id: u64,
}

impl Clone for PushDataCmd {
    /// A command with the same account and the same record.
    fn clone(&self) -> (copy: Self)
        ensures
            copy.target() == self.target(),
            copy.record() == self.record(),
    {
        PushDataCmd {
            account_id: self.account_id,
            asset_pair: self.asset_pair.clone(),
            price: self.price,
            decimals: self.decimals,
            publisher_id: self.publisher_id,
        }
    }
}

impl PushDataCmd {
    /// The account that the command pushes to.
    pub closed spec fn target(&self) -> AccountId {
        self.account_id
    }

    /// The record that the command pushes: its four parts as they were given.
    pub closed spec fn record(&self) -> OracleDataView {
        OracleDataView {
            asset_pair: self.asset_pair@,
            price: self.price,
            decimals: self.decimals,
            publisher_id: self.publisher_id,
        }
    }

    /// Makes the command of its fields. Every value of each is taken.
    pub fn new(
        account_id: AccountId,
        asset_pair: String,
        price: u64,
        decimals: u64,
        publisher_id: u64,
    ) -> (cmd: Self)
        ensures
            cmd.target() == account_id,
            cmd.record() == (OracleDataView { asset_pair: asset_pair@, price, decimals, publisher_id }),
    {
        PushDataCmd { account_id, asset_pair, price, decimals, publisher_id }
    }

    /// The account that the command pushes to.
    pub fn account_id(&self) -> (account_id: AccountId)
        ensures
            account_id == self.target(),
    {
        self.account_id
    }

    /// The asset pair of the record.
    pub fn asset_pair(&self) -> (pair: &String)
        ensures
            pair@ == self.record().asset_pair,
    {
        &self.asset_pair
    }

    /// The price of the record, unscaled.
    pub fn price(&self) -> (price: u64)
        ensures
            price == self.record().price,
    {
        self.price
    }

    /// The number of decimals of the record.
    pub fn decimals(&self) -> (decimals: u64)
        ensures
            decimals == self.record().decimals,
    {
        self.decimals
    }

    /// The publisher of the record.
    pub fn publisher_id(&self) -> (publisher_id: u64)
        ensures
            publisher_id == self.record().publisher_id,
    {
        self.publisher_id
    }

    /// The record to push.
    pub fn oracle_data(&self) -> (data: OracleData)
        ensures
            data@ == self.record(),
    {
        OracleData::new(self.asset_pair.clone(), self.price, self.decimals, self.publisher_id)
    }

    /// What the command returns for a push that ended in `outcome`.
    pub fn report<E: core::fmt::Display>(outcome: Result<(), E>) -> (report: Result<String, String>)
        ensures
            reports(outcome, report),
    {
        match outcome {
            Ok(()) => Ok(CONFIRMATION.to_string()),
            Err(error) => Err(error.to_string()),
        }
    }

    /// Pushes the command's record to its account through `client`, once, and
    /// reports how the push ended.
    pub fn execute<C: OracleDataPusher>(&self, client: &mut C) -> (report: Result<String, String>)
        ensures
            exists|outcome: Result<(), C::Error>|
                #![auto]
                C::pushed(*old(client), self.target(), self.record(), *final(client), outcome)
                    && reports(outcome, report),
    {
        let data = self.oracle_data();
        let outcome = client.push_oracle_data(&self.account_id, data);
        Self::report(outcome)
    }
}

} // verus!
