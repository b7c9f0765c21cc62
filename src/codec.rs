//! The strategies that read and write a record's bytes, and offset-only
//! access to single fields.
use vstd::bytes::*;
use vstd::prelude::*;

use crate::backends::{
    bincode_decode, bincode_encode, borsh_decode, borsh_encode, bytemuck_key, bytemuck_record,
    bytemuck_record_mut, wincode_decode, wincode_encode, zerocopy_record, zerocopy_record_mut,
};
use crate::error::ProgramError;
use crate::layout::{
    amount_of, decode, encode, owner_of, read_array, read_u64, splice, write_bytes, Account,
    AccountModel, Pubkey,
};
use crate::offsets::{ACCOUNT_LEN, AMOUNT, AMOUNT_SIZE, OWNER, OWNER_SIZE, STATE};

verus! {

/// How a handler gets at the record in a buffer.
#[derive(Clone, Copy, Debug, PartialEq, Eq, Structural)]
pub enum Strategy {
    /// Owning, through bincode: decodes the fields in declared order from a
    /// prefix of the buffer and reports the bytes consumed; encodes the same way.
    Sequential,
    /// Owning, through wincode: a schema-driven codec whose bytes equal the
    /// sequential one's.
    Schema,
    /// Borrowed, through bytemuck: checks that the buffer is exactly one
    /// record, then works in place.
    CheckedCast,
    /// Borrowed: checks the length alone. Every buffer of the record's length
    /// holds some record, so the length is all there is to check.
    Unchecked,
    /// Owning, through borsh: decodes field by field; the destination's length
    /// is checked before any byte is written.
    Descriptor,
    /// Borrowed, through zerocopy: a cast whose layout is fixed by the type;
    /// at run time it checks the length as `CheckedCast` does.
    LayoutCast,
}

impl Strategy {
    /// The strategy copies the record out and must write it back.
    pub open spec fn is_owning(self) -> bool {
        match self {
            Strategy::Sequential | Strategy::Schema | Strategy::Descriptor => true,
            _ => false,
        }
    }

    /// The strategy takes a buffer of `len` bytes as a record.
    pub open spec fn accepts(self, len: int) -> bool {
        if self.is_owning() {
            len >= ACCOUNT_LEN
        } else {
            len == ACCOUNT_LEN
        }
    }

    /// Whether the strategy copies the record out.
    pub fn owning(self) -> (r: bool)
        ensures
            r == self.is_owning(),
    {
        match self {
            Strategy::Sequential | Strategy::Schema | Strategy::Descriptor => true,
            _ => false,
        }
    }

    /// Whether the strategy takes a buffer of `len` bytes as a record.
    pub fn check_len(self, len: usize) -> (r: bool)
        ensures
            r == self.accepts(len as int),
    {
        if self.owning() {
            len >= ACCOUNT_LEN
        } else {
            len == ACCOUNT_LEN
        }
    }
}

/// The record that strategy `s` reads from `bytes`, if it takes them.
pub open spec fn decode_with(s: Strategy, bytes: Seq<u8>) -> Option<AccountModel> {
    if s.accepts(bytes.len() as int) {
        Some(decode(bytes))
    } else {
        None
    }
}

/// The buffer after strategy `s` writes `m` into `dest`, if it takes `dest`.
pub open spec fn encode_with(s: Strategy, m: AccountModel, dest: Seq<u8>) -> Option<Seq<u8>> {
    if s.accepts(dest.len() as int) {
        Some(splice(dest, 0, encode(m)))
    } else {
        None
    }
}

/// `s` with the state byte set to `v`.
pub open spec fn with_state(s: Seq<u8>, v: u8) -> Seq<u8> {
    s.update(STATE as int, v)
}

/// `s` with the amount field set to `v`.
pub open spec fn with_amount(s: Seq<u8>, v: u64) -> Seq<u8> {
    splice(s, AMOUNT as int, spec_u64_to_le_bytes(v))
}

/// Sequential decoding: the record at the front of `bytes` and the count of
/// bytes it took.
pub fn decode_sequential(bytes: &[u8]) -> (r: Result<(Account, usize), ProgramError>)
    ensures
        match r {
            Ok((a, n)) => bytes@.len() >= ACCOUNT_LEN && n == ACCOUNT_LEN && a@ == decode(bytes@),
            Err(e) => bytes@.len() < ACCOUNT_LEN && e == ProgramError::InvalidAccountData,
        },
{
    match bincode_decode(bytes) {
        Ok((f, n)) => Ok((Account::from_fields(f), n)),
        Err(_) => Err(ProgramError::InvalidAccountData),
    }
}

/// A borrowed strategy's read-only view of `bytes`: the same bytes, once the
/// strategy has checked that they are exactly one record.
pub fn view(s: Strategy, bytes: &[u8]) -> (r: Result<&[u8], ProgramError>)
    requires
        !s.is_owning(),
    ensures
        match r {
            Ok(v) => bytes@.len() == ACCOUNT_LEN && v@ == bytes@,
            Err(e) => bytes@.len() != ACCOUNT_LEN && e == ProgramError::InvalidAccountData,
        },
{
    match s {
        Strategy::CheckedCast => match bytemuck_record(bytes) {
            Ok(v) => Ok(v.as_slice()),
            Err(_) => Err(ProgramError::InvalidAccountData),
        },
        Strategy::LayoutCast => match zerocopy_record(bytes) {
            Some(v) => Ok(v.as_slice()),
            None => Err(ProgramError::InvalidAccountData),
        },
        _ => {
            if bytes.len() != ACCOUNT_LEN {
                return Err(ProgramError::InvalidAccountData);
            }
            Ok(bytes)
        },
    }
}

/// A borrowed strategy's view of `bytes` to be changed in place, once the
/// strategy has checked that they are exactly one record; a refused buffer is
/// left as it is.
pub fn view_mut(s: Strategy, bytes: &mut [u8]) -> (r: Result<&mut [u8], ProgramError>)
    requires
        !s.is_owning(),
    ensures
        match r {
            Ok(v) => old(bytes)@.len() == ACCOUNT_LEN && v@ == old(bytes)@ && final(bytes)@
                == final(v)@,
            Err(e) => old(bytes)@.len() != ACCOUNT_LEN && e == ProgramError::InvalidAccountData
                && final(bytes)@ == old(bytes)@,
        },
{
    match s {
        Strategy::CheckedCast => match bytemuck_record_mut(bytes) {
            Ok(v) => Ok(v),
            Err(_) => Err(ProgramError::InvalidAccountData),
        },
        Strategy::LayoutCast => match zerocopy_record_mut(bytes) {
            Some(v) => Ok(v),
            None => Err(ProgramError::InvalidAccountData),
        },
        _ => Account::transmute_unchecked_mut(bytes),
    }
}

/// Reads the record from `bytes` with strategy `s`.
pub fn decode_record(s: Strategy, bytes: &[u8]) -> (r: Result<Account, ProgramError>)
    ensures
        match r {
            Ok(a) => decode_with(s, bytes@) == Some(a@),
            Err(e) => decode_with(s, bytes@) is None && e == ProgramError::InvalidAccountData,
        },
{
    match s {
        Strategy::Sequential => match decode_sequential(bytes) {
            Ok((a, _)) => Ok(a),
            Err(e) => Err(e),
        },
        Strategy::Schema => match wincode_decode(bytes) {
            Ok(f) => Ok(Account::from_fields(f)),
            Err(_) => Err(ProgramError::InvalidAccountData),
        },
        Strategy::Descriptor => match borsh_decode(bytes) {
            Ok(f) => Ok(Account::from_fields(f)),
            Err(_) => Err(ProgramError::InvalidAccountData),
        },
        _ => match view(s, bytes) {
            Ok(v) => Ok(Account::read_from(v)),
            Err(e) => Err(e),
        },
    }
}

/// Writes `a` into `bytes` with strategy `s`; the length is checked before
/// any byte is written, and a buffer that the strategy does not take is left
/// as it is.
pub fn encode_record(s: Strategy, a: &Account, bytes: &mut [u8]) -> (r: Result<(), ProgramError>)
    ensures
        match encode_with(s, a@, old(bytes)@) {
            Some(out) => r == Ok::<(), ProgramError>(()) && final(bytes)@ == out,
            None => r == Err::<(), ProgramError>(ProgramError::EncodeFailure) && final(bytes)@
                == old(bytes)@,
        },
{
    if !s.check_len(bytes.len()) {
        return Err(ProgramError::EncodeFailure);
    }
    match s {
        Strategy::Sequential => match bincode_encode(a.to_fields(), bytes) {
            Ok(_) => Ok(()),
            Err(_) => Err(ProgramError::EncodeFailure),
        },
        Strategy::Schema => match wincode_encode(&a.to_fields(), bytes) {
            Ok(_) => Ok(()),
            Err(_) => Err(ProgramError::EncodeFailure),
        },
        Strategy::Descriptor => match borsh_encode(&a.to_fields(), bytes) {
            Ok(_) => Ok(()),
            Err(_) => Err(ProgramError::EncodeFailure),
        },
        _ => match view_mut(s, bytes) {
            Ok(v) => {
                a.write_to(v);
                Ok(())
            },
            Err(_) => Err(ProgramError::EncodeFailure),
        },
    }
}

/// Reads the owner key alone, at its offset.
pub fn owner_field(bytes: &[u8]) -> (r: Result<Pubkey, ProgramError>)
    ensures
        match r {
            Ok(k) => bytes@.len() >= OWNER + OWNER_SIZE && k@ == owner_of(bytes@),
            Err(e) => bytes@.len() < OWNER + OWNER_SIZE && e == ProgramError::InvalidAccountData,
        },
{
    if bytes.len() < OWNER + OWNER_SIZE {
        return Err(ProgramError::InvalidAccountData);
    }
    Ok(read_array(bytes, OWNER))
}

/// Reads the owner key alone, at its offset, through a checked cast of its
/// byte range.
pub fn owner_field_checked(bytes: &[u8]) -> (r: Result<Pubkey, ProgramError>)
    ensures
        match r {
            Ok(k) => bytes@.len() >= OWNER + OWNER_SIZE && k@ == owner_of(bytes@),
            Err(e) => bytes@.len() < OWNER + OWNER_SIZE && e == ProgramError::InvalidAccountData,
        },
{
    if bytes.len() < OWNER + OWNER_SIZE {
        return Err(ProgramError::InvalidAccountData);
    }
    match bytemuck_key(&bytes[OWNER..OWNER + OWNER_SIZE]) {
        Ok(k) => Ok(*k),
        Err(_) => Err(ProgramError::InvalidAccountData),
    }
}

/// Reads the amount alone, at its offset.
pub fn amount_field(bytes: &[u8]) -> (r: Result<u64, ProgramError>)
    ensures
        match r {
            Ok(v) => bytes@.len() >= AMOUNT + AMOUNT_SIZE && v == amount_of(bytes@),
            Err(e) => bytes@.len() < AMOUNT + AMOUNT_SIZE && e == ProgramError::InvalidAccountData,
        },
{
    if bytes.len() < AMOUNT + AMOUNT_SIZE {
        return Err(ProgramError::InvalidAccountData);
    }
    Ok(read_u64(bytes, AMOUNT))
}

/// Writes the amount alone, at its offset; no other byte is touched.
pub fn set_amount_field(bytes: &mut [u8], v: u64) -> (r: Result<(), ProgramError>)
    ensures
        old(bytes)@.len() >= AMOUNT + AMOUNT_SIZE ==> r == Ok::<(), ProgramError>(())
            && final(bytes)@ == with_amount(old(bytes)@, v),
        old(bytes)@.len() < AMOUNT + AMOUNT_SIZE ==> r == Err::<(), ProgramError>(
            ProgramError::InvalidAccountData,
        ) && final(bytes)@ == old(bytes)@,
{
    if bytes.len() < AMOUNT + AMOUNT_SIZE {
        return Err(ProgramError::InvalidAccountData);
    }
    let le = u64_to_le_bytes(v);
    write_bytes(bytes, AMOUNT, le.as_slice());
    Ok(())
}

/// Writes the state byte in place.
pub fn set_state_field(bytes: &mut [u8], v: u8)
    requires
        old(bytes)@.len() > STATE,
    ensures
        final(bytes)@ == with_state(old(bytes)@, v),
{
    bytes[STATE] = v;
}

impl Account {
    /// Reads a record from a buffer that must be exactly one record long; any
    /// such buffer holds some record.
    pub fn transmute_unchecked(bytes: &[u8]) -> (r: Result<Account, ProgramError>)
        ensures
            match r {
                Ok(a) => bytes@.len() == ACCOUNT_LEN && a@ == decode(bytes@),
                Err(e) => bytes@.len() != ACCOUNT_LEN && e == ProgramError::InvalidAccountData,
            },
    {
        decode_record(Strategy::Unchecked, bytes)
    }

    /// Checks that a buffer is exactly one record long and hands it back as a
    /// view to be changed in place.
    pub fn transmute_unchecked_mut(bytes: &mut [u8]) -> (r: Result<&mut [u8], ProgramError>)
        ensures
            match r {
                Ok(v) => old(bytes)@.len() == ACCOUNT_LEN && v@ == old(bytes)@ && final(bytes)@
                    == final(v)@,
                Err(e) => old(bytes)@.len() != ACCOUNT_LEN && e == ProgramError::InvalidAccountData
                    && final(bytes)@ == old(bytes)@,
            },
    {
        if bytes.len() != ACCOUNT_LEN {
            return Err(ProgramError::InvalidAccountData);
        }
        Ok(bytes)
    }
}

} // verus!
