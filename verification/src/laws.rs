//! What holds of every push, proved from the contracts of its steps.

use vstd::prelude::*;
use vstd::string::to_string_from_display_ensures;
use miden_objects::accounts::Account;
use miden_objects::AccountError;
use crate::command::{reports, PushDataCmd, CONFIRMATION};
use crate::ledger::account_code_assembly_error;
use crate::push::{spec_settled, Lookup, Update};

verus! {

/// Where the account resolves, the push orders the update of that very
/// account, with the record and the key it was begun with; where that update
/// succeeds, the push ends in success; and what the command reports of a
/// success is the confirmation and nothing else.
pub proof fn law_success_is_confirmed<'k, E: core::fmt::Display>(
    lookup: Lookup<'k>,
    account: Account,
    report: Result<String, String>,
)
    requires
        reports::<E>(Ok(()), report),
    ensures
        lookup.spec_resolved::<E>(Ok(account)) == Ok::<Update<'k>, E>(
            Update { account, data: lookup.data, key: lookup.key },
        ),
        spec_settled(Ok(())) == Ok::<(), AccountError>(()),
        report matches Ok(text) && text@ == CONFIRMATION@,
{
}

/// Where the account does not resolve, the push ends at once in the lookup's
/// own error, and no update is ordered. What the command reports of it is a
/// failure whose message is that error as its `Display` writes it.
pub proof fn law_unresolved_account_orders_nothing<'k, E: core::fmt::Display>(
    lookup: Lookup<'k>,
    error: E,
    report: Result<String, String>,
)
    requires
        reports::<E>(Err(error), report),
    ensures
        lookup.spec_resolved::<E>(Err(error)) == Err::<Update<'k>, E>(error),
        !(lookup.spec_resolved::<E>(Err(error)) is Ok),
        report matches Err(text) && to_string_from_display_ensures::<E>(&error, text),
{
}

/// Where the account resolves and the update fails with a message, the push
/// ends in the account error of the code assembly category that holds that
/// message: the same error for the same message, whatever the account and
/// the record.
pub proof fn law_failed_update_keeps_its_message<'k, E>(
    lookup: Lookup<'k>,
    account: Account,
    message: Seq<char>,
)
    ensures
        lookup.spec_resolved::<E>(Ok(account)) is Ok,
        spec_settled(Err(message)) == Err::<(), AccountError>(account_code_assembly_error(message)),
{
}

/// Whatever the command's fields hold, the empty pair and the smallest and
/// largest numbers included, a push begun with the command's record orders
/// the update with that record, part for part.
pub proof fn law_record_is_forwarded_unchanged<'k, E>(
    cmd: PushDataCmd,
    lookup: Lookup<'k>,
    account: Account,
)
    requires
        lookup.data@ == cmd.record(),
    ensures
        lookup.spec_resolved::<E>(Ok(account)) matches Ok(update) && update.data@ == cmd.record(),
{
}

/// A push remembers no earlier push. Begun again with the same account
/// identifier, record and key, it orders the same update of whatever account
/// the ledger then finds, and ends in success again where that update
/// succeeds.
pub proof fn law_push_again_pushes_again<'k, E>(
    first: Lookup<'k>,
    second: Lookup<'k>,
    found_first: Account,
    found_second: Account,
)
    requires
        first == second,
    ensures
        first.spec_resolved::<E>(Ok(found_first)) == Ok::<Update<'k>, E>(
            Update { account: found_first, data: first.data, key: first.key },
        ),
        second.spec_resolved::<E>(Ok(found_second)) == Ok::<Update<'k>, E>(
            Update { account: found_second, data: first.data, key: first.key },
        ),
        spec_settled(Ok(())) == Ok::<(), AccountError>(()),
{
}

} // verus!
