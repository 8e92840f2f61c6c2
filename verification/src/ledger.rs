//! What the library takes from the ledger's own crates.
//!
//! The values of these types pass through the library as they are: it never
//! looks inside one. The one value it makes itself is the account error under
//! which a failed update is filed.

use vstd::prelude::*;

verus! {

/// `miden_objects::accounts::AccountId`: the identifier that names an account.
#[verifier::external_type_specification]
#[verifier::external_body]
pub struct ExAccountId(miden_objects::accounts::AccountId);

/// `miden_objects::accounts::Account`: an account as the ledger's client holds it.
#[verifier::external_type_specification]
#[verifier::external_body]
pub struct ExAccount(miden_objects::accounts::Account);

/// `miden_objects::crypto::dsa::rpo_falcon512::SecretKey`: a signing key.
#[verifier::external_type_specification]
#[verifier::external_body]
pub struct ExSecretKey(miden_objects::crypto::dsa::rpo_falcon512::SecretKey);

/// `miden_objects::AccountError`: the ledger's error for what concerns an account.
#[verifier::external_type_specification]
#[verifier::external_body]
pub struct ExAccountError(miden_objects::AccountError);

/// The account error `AccountError::AccountCodeAssemblyError` that holds
/// `message`.
pub uninterp spec fn account_code_assembly_error(message: Seq<char>) -> miden_objects::AccountError;

/// Calls the constructor `miden_objects::AccountError::AccountCodeAssemblyError`
/// on `message`. Not proved: that the error it gives is the one of that
/// variant which holds the characters of `message`, and so depends on nothing
/// but them.
#[verifier::external_body]
pub(crate) fn assembly_error(message: String) -> (error: miden_objects::AccountError)
    ensures
        error == account_code_assembly_error(message@),
{
    miden_objects::AccountError::AccountCodeAssemblyError(message)
}

} // verus!
