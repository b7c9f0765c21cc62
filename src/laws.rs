//! Properties that hold across strategies and operations.
use vstd::prelude::*;

use crate::codec::{decode_with, encode_with, Strategy};
use crate::error::ProgramError;
use crate::instruction::Instruction;
use crate::layout::{
    amount_of, decode, encode, lemma_decode_prefix, lemma_encode_fields, owner_of, splice,
    AccountModel,
};
use crate::offsets::ACCOUNT_LEN;
use crate::processor::outcome;

verus! {

/// For every strategy, writing a well-formed record into a buffer that the
/// strategy takes and reading it back gives the same record, field for field.
pub proof fn round_trip(s: Strategy, m: AccountModel, dest: Seq<u8>)
    requires
        m.wf(),
        s.accepts(dest.len() as int),
    ensures
        encode_with(s, m, dest) is Some,
        decode_with(s, encode_with(s, m, dest)->Some_0) == Some(m),
{
    lemma_encode_fields(m);
    let out = splice(dest, 0, encode(m));
    assert(out.len() == dest.len());
    assert(out.subrange(0, ACCOUNT_LEN as int) =~= encode(m));
    lemma_decode_prefix(out);
}

/// On a buffer that is exactly one record long, every strategy, with or
/// without offset-only field access, gives the same result and leaves the
/// same bytes, for every operation and authority.
pub proof fn strategies_agree(
    s1: Strategy,
    field_access1: bool,
    s2: Strategy,
    field_access2: bool,
    op: Instruction,
    bytes: Seq<u8>,
    authority: Seq<u8>,
)
    requires
        bytes.len() == ACCOUNT_LEN,
    ensures
        outcome(s1, field_access1, op, bytes, authority) == outcome(
            s2,
            field_access2,
            op,
            bytes,
            authority,
        ),
{
}

/// The owner and the amount read at their offsets are the owner and the
/// amount of the whole decoded record.
pub proof fn field_access_matches_decode(bytes: Seq<u8>)
    requires
        bytes.len() >= ACCOUNT_LEN,
    ensures
        owner_of(bytes) == decode(bytes).owner,
        amount_of(bytes) == decode(bytes).amount,
{
}

/// Where the strategy takes the buffer, `Full` and `ReadOwner` fail with
/// `IncorrectAuthority` exactly when the decoded owner is not the authority,
/// whatever the strategy.
pub proof fn authorization_depends_on_owner_only(
    s: Strategy,
    field_access: bool,
    op: Instruction,
    bytes: Seq<u8>,
    authority: Seq<u8>,
)
    requires
        op == Instruction::Full || op == Instruction::ReadOwner,
        s.accepts(bytes.len() as int),
    ensures
        (outcome(s, field_access, op, bytes, authority).0 == Err::<(), ProgramError>(
            ProgramError::IncorrectAuthority,
        )) <==> decode(bytes).owner != authority,
{
}

/// `ReadOwner` leaves the record buffer as it was, whether it succeeds or fails.
pub proof fn read_owner_leaves_buffer(
    s: Strategy,
    field_access: bool,
    bytes: Seq<u8>,
    authority: Seq<u8>,
)
    ensures
        outcome(s, field_access, Instruction::ReadOwner, bytes, authority).1 == bytes,
{
}

/// An operation that fails leaves the record buffer as it was: every check
/// comes before the first write.
pub proof fn failure_leaves_buffer(
    s: Strategy,
    field_access: bool,
    op: Instruction,
    bytes: Seq<u8>,
    authority: Seq<u8>,
)
    ensures
        outcome(s, field_access, op, bytes, authority).0 is Err ==> outcome(
            s,
            field_access,
            op,
            bytes,
            authority,
        ).1 == bytes,
{
}

} // verus!
