//! The steps of one push, for a driver that makes the calls on the ledger.
//!
//! A push asks two things of the ledger, in this order: the account that an
//! identifier names, and, only if there is one, an update of that account with
//! the record, authorised by the oracle's signing key. The driver makes each
//! call and hands back what came of it; what follows from the answer is decided
//! here.

use vstd::prelude::*;
use miden_objects::accounts::{Account, AccountId};
use miden_objects::crypto::dsa::rpo_falcon512::SecretKey;
use miden_objects::AccountError;
use crate::data::OracleData;
use crate::ledger::{account_code_assembly_error, assembly_error};

verus! {

/// A push that has not reached the ledger yet. It asks the driver to look up
/// the account that `account_id` names, and keeps what the update will need.
pub struct Lookup<'k> {
    pub account_id: AccountId,
    pub data: OracleData,
    pub key: &'k SecretKey,
}

/// The order to update `account` with `data`, authorised by `key`.
pub struct Update<'k> {
    pub account: Account,
    pub data: OracleData,
    pub key: &'k SecretKey,
}

impl<'k> Lookup<'k> {
    /// What follows from the answer to the lookup: the order to update the
    /// account that was found, with the record and the key of this push; or,
    /// where none was found, the lookup's own error and no order.
    pub open spec fn spec_resolved<E>(self, found: Result<Account, E>) -> Result<Update<'k>, E> {
        match found {
            Ok(account) => Ok(Update { account, data: self.data, key: self.key }),
            Err(error) => Err(error),
        }
    }

    /// Starts a push of `data` to the account that `account_id` names, to be
    /// authorised by `key`.
    pub fn begin(account_id: &AccountId, data: OracleData, key: &'k SecretKey) -> (lookup: Self)
        ensures
            lookup == (Lookup { account_id: *account_id, data, key }),
    {
        Lookup { account_id: *account_id, data, key }
    }

    /// Takes the answer to the lookup and gives what `spec_resolved` says of
    /// it. The error of a failed lookup comes back as it was handed in.
    pub fn resolved<E>(self, found: Result<Account, E>) -> (next: Result<Update<'k>, E>)
        ensures
            next == self.spec_resolved(found),
    {
        match found {
            Ok(account) => Ok(Update { account, data: self.data, key: self.key }),
            Err(error) => Err(error),
        }
    }
}

/// What a push ends in, given how the update went: success where the update
/// succeeded, and else the account error of the code assembly category that
/// holds the update's message. Every failure of the update is filed under
/// that one category, whatever its cause: the category tells that the update
/// failed, the message tells why.
pub open spec fn spec_settled(applied: Result<(), Seq<char>>) -> Result<(), AccountError> {
    match applied {
        Ok(()) => Ok(()),
        Err(message) => Err(account_code_assembly_error(message)),
    }
}

/// How the update went, with the message of a failure as characters.
pub open spec fn applied_view(applied: Result<(), String>) -> Result<(), Seq<char>> {
    match applied {
        Ok(()) => Ok(()),
        Err(message) => Err(message@),
    }
}

/// Takes how the update went, a failure by its message, and gives what the
/// push ends in.
pub fn settled(applied: Result<(), String>) -> (end: Result<(), AccountError>)
    ensures
        end == spec_settled(applied_view(applied)),
{
    match applied {
        Ok(()) => Ok(()),
        Err(message) => Err(assembly_error(message)),
    }
}

} // verus!
