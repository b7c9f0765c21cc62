//! The three operations and the instruction entry point.
use vstd::bytes::*;
use vstd::prelude::*;

use crate::codec::{
    decode_record, encode_record, owner_field, owner_field_checked, set_amount_field,
    set_state_field, view_mut, with_amount, with_state, Strategy,
};
use crate::error::ProgramError;
use crate::instruction::{parse, Instruction};
use crate::layout::{
    decode, encode, lemma_decode_encode, lemma_decode_prefix, owner_of, read_array, splice,
    AccountModel, Pubkey,
};
use crate::offsets::{ACCOUNT_LEN, AMOUNT, AMOUNT_SIZE, OWNER, OWNER_SIZE, STATE};

verus! {

/// The state that `Full` sets.
pub const FULL_STATE: u8 = 255;

/// The amount that `Full` and `UpdateAmount` set.
pub const NEW_AMOUNT: u64 = 1_000_000_000;

/// Whether the access path takes a buffer of `len` bytes for `op`: offset-only
/// access needs the field's range, whole-record access what the strategy takes.
pub open spec fn access_ok(s: Strategy, field_access: bool, op: Instruction, len: int) -> bool {
    if field_access && op == Instruction::ReadOwner {
        len >= OWNER + OWNER_SIZE
    } else if field_access && op == Instruction::UpdateAmount {
        len >= AMOUNT + AMOUNT_SIZE
    } else {
        s.accepts(len)
    }
}

/// The buffer after `op` succeeds on `bytes`.
pub open spec fn apply(op: Instruction, bytes: Seq<u8>) -> Seq<u8> {
    match op {
        Instruction::Full => with_amount(with_state(bytes, FULL_STATE), NEW_AMOUNT),
        Instruction::ReadOwner => bytes,
        Instruction::UpdateAmount => with_amount(bytes, NEW_AMOUNT),
    }
}

/// What `op` returns and leaves in the record buffer, given the buffer and the
/// authority's key: a refused buffer, then a wrong owner, fail with the buffer
/// untouched.
pub open spec fn outcome(
    s: Strategy,
    field_access: bool,
    op: Instruction,
    bytes: Seq<u8>,
    authority: Seq<u8>,
) -> (Result<(), ProgramError>, Seq<u8>) {
    if !access_ok(s, field_access, op, bytes.len() as int) {
        (Err(ProgramError::InvalidAccountData), bytes)
    } else if op != Instruction::UpdateAmount && owner_of(bytes) != authority {
        (Err(ProgramError::IncorrectAuthority), bytes)
    } else {
        (Ok(()), apply(op, bytes))
    }
}

/// Compares two keys byte for byte.
pub fn keys_equal(a: &Pubkey, b: &Pubkey) -> (r: bool)
    ensures
        r == (a@ == b@),
{
    let mut i: usize = 0;
    while i < 32
        invariant
            0 <= i <= 32,
            a@.len() == 32,
            b@.len() == 32,
            forall|j: int| 0 <= j < i ==> a@[j] == b@[j],
        decreases 32 - i,
    {
        if a[i] != b[i] {
            return false;
        }
        i += 1;
    }
    assert(a@ =~= b@);
    true
}

/// Writing back a decoded record with a new state and amount changes exactly
/// those two fields of the buffer.
proof fn lemma_write_back(s: Seq<u8>, st: u8, amt: u64)
    requires
        s.len() >= ACCOUNT_LEN,
    ensures
        splice(s, 0, encode(AccountModel { state: st, amount: amt, ..decode(s) })) == with_amount(
            with_state(s, st),
            amt,
        ),
{
    lemma_auto_spec_u64_to_from_le_bytes();
    let t = s.subrange(0, ACCOUNT_LEN as int);
    lemma_decode_encode(t);
    lemma_decode_prefix(s);
    assert(decode(t) == decode(s));
    let m = AccountModel { state: st, amount: amt, ..decode(s) };
    assert(splice(s, 0, encode(m)) =~= with_amount(with_state(s, st), amt));
}

/// `Full`: reads the record with strategy `s`, checks its owner against
/// `authority`, then sets the state and the amount; nothing is written
/// before every check has passed.
pub fn process_full(s: Strategy, record: &mut [u8], authority: &Pubkey) -> (r: Result<
    (),
    ProgramError,
>)
    ensures
        (r, final(record)@) == outcome(s, false, Instruction::Full, old(record)@, authority@),
{
    if s.owning() {
        let mut account = match decode_record(s, record) {
            Ok(a) => a,
            Err(e) => return Err(e),
        };
        if !keys_equal(&account.owner, authority) {
            return Err(ProgramError::IncorrectAuthority);
        }
        account.state = FULL_STATE;
        account.amount = NEW_AMOUNT;
        proof {
            lemma_write_back(old(record)@, FULL_STATE, NEW_AMOUNT);
        }
        encode_record(s, &account, record)
    } else {
        let view = match view_mut(s, record) {
            Ok(v) => v,
            Err(e) => return Err(e),
        };
        let owner: Pubkey = read_array(view, OWNER);
        if !keys_equal(&owner, authority) {
            return Err(ProgramError::IncorrectAuthority);
        }
        set_state_field(view, FULL_STATE);
        set_amount_field(view, NEW_AMOUNT)
    }
}

/// `ReadOwner`: checks the record's owner against `authority`, through the
/// owner field alone where `field_access` holds; the buffer is never written.
pub fn process_read_owner(s: Strategy, field_access: bool, record: &[u8], authority: &Pubkey) -> (r:
    Result<(), ProgramError>)
    ensures
        (r, record@) == outcome(s, field_access, Instruction::ReadOwner, record@, authority@),
{
    let owner: Pubkey = if field_access {
        let field = if s == Strategy::CheckedCast {
            owner_field_checked(record)
        } else {
            owner_field(record)
        };
        match field {
            Ok(k) => k,
            Err(e) => return Err(e),
        }
    } else {
        match decode_record(s, record) {
            Ok(a) => a.owner,
            Err(e) => return Err(e),
        }
    };
    if !keys_equal(&owner, authority) {
        return Err(ProgramError::IncorrectAuthority);
    }
    Ok(())
}

/// `UpdateAmount`: sets the amount with no check of the owner, through the
/// amount field alone where `field_access` holds.
pub fn process_update_amount(s: Strategy, field_access: bool, record: &mut [u8]) -> (r: Result<
    (),
    ProgramError,
>)
    ensures
        forall|authority: Seq<u8>|
            #![auto]
            (r, final(record)@) == outcome(
                s,
                field_access,
                Instruction::UpdateAmount,
                old(record)@,
                authority,
            ),
{
    if field_access {
        set_amount_field(record, NEW_AMOUNT)
    } else if s.owning() {
        let mut account = match decode_record(s, record) {
            Ok(a) => a,
            Err(e) => return Err(e),
        };
        account.amount = NEW_AMOUNT;
        proof {
            let old_s = old(record)@;
            lemma_write_back(old_s, old_s[STATE as int], NEW_AMOUNT);
            assert(with_state(old_s, old_s[STATE as int]) =~= old_s);
        }
        encode_record(s, &account, record)
    } else {
        let view = match view_mut(s, record) {
            Ok(v) => v,
            Err(e) => return Err(e),
        };
        set_amount_field(view, NEW_AMOUNT)
    }
}

/// A program: the strategy it reads records with, whether `ReadOwner` and
/// `UpdateAmount` go through offset-only field access, and whether an empty
/// payload selects `Full`.
#[derive(Clone, Copy, Debug, PartialEq, Eq, Structural)]
pub struct Program {
    /// How whole-record access reads and writes the record.
    pub strategy: Strategy,
    /// `ReadOwner` and `UpdateAmount` touch their field's byte range alone.
    pub field_access: bool,
    /// An empty payload selects `Full` instead of being refused.
    pub empty_is_full: bool,
}

/// An account as an instruction receives it: its address and its data.
#[derive(Clone, Debug, PartialEq, Eq)]
pub struct AccountData {
    /// The account's key.
    pub address: Pubkey,
    /// The account's bytes.
    pub data: Vec<u8>,
}

/// Runs one instruction: `accounts[0]` holds the record, `accounts[1]` is the
/// authority, the first byte of `instruction_data` selects the operation.
/// Only the record's data can change.
pub fn process_instruction(
    program: &Program,
    accounts: &mut Vec<AccountData>,
    instruction_data: &[u8],
) -> (r: Result<(), ProgramError>)
    ensures
        old(accounts)@.len() < 2 ==> r == Err::<(), ProgramError>(
            ProgramError::NotEnoughAccountKeys,
        ) && final(accounts)@ == old(accounts)@,
        old(accounts)@.len() >= 2 && parse(instruction_data@, program.empty_is_full) is None ==> r
            == Err::<(), ProgramError>(ProgramError::InvalidInstructionData) && final(accounts)@
            == old(accounts)@,
        old(accounts)@.len() >= 2 ==> match parse(instruction_data@, program.empty_is_full) {
            Some(op) => {
                &&& (r, final(accounts)@[0].data@) == outcome(
                    program.strategy,
                    program.field_access,
                    op,
                    old(accounts)@[0].data@,
                    old(accounts)@[1].address@,
                )
                &&& final(accounts)@.len() == old(accounts)@.len()
                &&& final(accounts)@[0].address == old(accounts)@[0].address
                &&& forall|i: int|
                    1 <= i < old(accounts)@.len() ==> final(accounts)@[i] == old(accounts)@[i]
            },
            None => true,
        },
{
    if accounts.len() < 2 {
        return Err(ProgramError::NotEnoughAccountKeys);
    }
    let op = match Instruction::try_from_payload(instruction_data, program.empty_is_full) {
        Ok(i) => i,
        Err(e) => return Err(e),
    };
    let authority: Pubkey = accounts[1].address;
    let account = &mut accounts[0];
    let record = account.data.as_mut_slice();
    match op {
        Instruction::Full => process_full(program.strategy, record, &authority),
        Instruction::ReadOwner => process_read_owner(
            program.strategy,
            program.field_access,
            record,
            &authority,
        ),
        Instruction::UpdateAmount => process_update_amount(
            program.strategy,
            program.field_access,
            record,
        ),
    }
}

} // verus!
