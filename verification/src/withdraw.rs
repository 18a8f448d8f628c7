use vstd::prelude::*;
use crate::error::BridgeError;

verus! {

/// What a withdrawal reads of a token's record: its owner and the accounts
/// that the owner approved.
#[derive(Debug, PartialEq, Eq)]
pub struct TokenOwnership {
    pub owner_id: String,
    pub approved_account_ids: Vec<String>,
}

/// What is handed on once a withdrawal is authorized: the token to release
/// on the source chain, and who receives it there.
#[derive(Debug, PartialEq, Eq)]
pub struct FinishWithdraw {
    pub token_id: String,
    pub recipient: String,
}

/// Whether `caller` is one of `accounts`.
pub open spec fn is_listed(accounts: Seq<String>, caller: Seq<char>) -> bool {
    exists|i: int| 0 <= i < accounts.len() && (#[trigger] accounts[i])@ == caller
}

/// Whether `caller` may withdraw the token: it is the owner, or one of the
/// accounts that the owner approved.
pub open spec fn may_withdraw(token: TokenOwnership, caller: Seq<char>) -> bool {
    caller == token.owner_id@ || is_listed(token.approved_account_ids@, caller)
}

/// Whether `caller` is one of `accounts`.
pub fn contains_account(accounts: &Vec<String>, caller: &String) -> (listed: bool)
    ensures
        listed == is_listed(accounts@, caller@),
{
    let mut i: usize = 0;
    while i < accounts.len()
        invariant
            i <= accounts.len(),
            forall|j: int| 0 <= j < i ==> (#[trigger] accounts@[j])@ != caller@,
        decreases accounts.len() - i,
    {
        if accounts[i] == *caller {
            return true;
        }
        i += 1;
    }
    false
}

/// Decides a withdrawal. `token` is the record found under `token_id`, if
/// any. No record is `NotFound`; a caller that is neither the owner nor
/// approved is `Unauthorized`; otherwise the token id and the recipient are
/// handed on unchanged.
pub fn authorize_withdraw(
    token: Option<&TokenOwnership>,
    caller: &String,
    token_id: String,
    recipient: String,
) -> (decision: Result<FinishWithdraw, BridgeError>)
    ensures
        token is None ==> decision == Err::<FinishWithdraw, BridgeError>(BridgeError::NotFound),
        token matches Some(record) && !may_withdraw(*record, caller@) ==> decision == Err::<
            FinishWithdraw,
            BridgeError,
        >(BridgeError::Unauthorized),
        token matches Some(record) && may_withdraw(*record, caller@) ==> decision == Ok::<
            FinishWithdraw,
            BridgeError,
        >(FinishWithdraw { token_id, recipient }),
{
    match token {
        None => Err(BridgeError::NotFound),
        Some(record) => {
            if *caller == record.owner_id || contains_account(&record.approved_account_ids, caller) {
                Ok(FinishWithdraw { token_id, recipient })
            } else {
                Err(BridgeError::Unauthorized)
            }
        },
    }
}

/// A set of pause flags, one bit for each operation that can be paused.
pub type Mask = u128;

/// The flag that pauses withdrawals.
pub const PAUSE_WITHDRAW: Mask = 1;

/// Whether an operation is paused for a caller: its flag is set, and the
/// caller is not the contract itself, which is never held up.
pub open spec fn paused_for(paused: Mask, flag: Mask, caller_is_contract: bool) -> bool {
    (paused & flag) != 0 && !caller_is_contract
}

/// Whether the operation under `flag` is paused for the caller.
pub fn is_paused(paused: Mask, flag: Mask, caller_is_contract: bool) -> (held: bool)
    ensures
        held == paused_for(paused, flag, caller_is_contract),
{
    (paused & flag) != 0 && !caller_is_contract
}

} // verus!
