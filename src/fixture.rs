//! The accounts and payloads that exercise a program: a record owned by a
//! given key with a starting amount, and the authority beside it.
use vstd::prelude::*;

use crate::instruction::Instruction;
use crate::layout::{encode, zero_model, Account, AccountModel, Pubkey};
use crate::offsets::ACCOUNT_LEN;
use crate::processor::AccountData;

verus! {

/// The amount that a fresh record starts with.
pub const INITIAL_AMOUNT: u64 = 500_000_000;

/// A zeroed record with `owner` and the starting amount.
pub open spec fn initial_model(owner: Seq<u8>) -> AccountModel {
    AccountModel { owner: owner, amount: INITIAL_AMOUNT, ..zero_model() }
}

/// The bytes of a zeroed record with `owner` and the starting amount.
pub fn initial_record(owner: &Pubkey) -> (r: Vec<u8>)
    ensures
        r@ == encode(initial_model(owner@)),
        r@.len() == ACCOUNT_LEN,
{
    let mut account = Account::default();
    account.owner = *owner;
    account.amount = INITIAL_AMOUNT;
    account.to_bytes()
}

/// The payload that selects `op`.
pub fn instruction_data(op: Instruction) -> (r: Vec<u8>)
    ensures
        r@ == seq![op.spec_to_byte()],
{
    let mut data: Vec<u8> = Vec::new();
    data.push(op.to_byte());
    data
}

/// The two accounts of an instruction: the record at `record_address`, owned by
/// `owner` and holding the starting amount, then `owner` with no data.
pub fn instruction_accounts(record_address: &Pubkey, owner: &Pubkey) -> (r: Vec<AccountData>)
    ensures
        r@.len() == 2,
        r@[0].address == *record_address,
        r@[0].data@ == encode(initial_model(owner@)),
        r@[1].address == *owner,
        r@[1].data@.len() == 0,
{
    let mut accounts: Vec<AccountData> = Vec::new();
    accounts.push(AccountData { address: *record_address, data: initial_record(owner) });
    accounts.push(AccountData { address: *owner, data: Vec::new() });
    accounts
}

} // verus!
