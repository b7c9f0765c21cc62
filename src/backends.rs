//! The outside codec and cast crates, each behind a wrapper whose contract
//! states what the crate does with a record's fields.
use vstd::prelude::*;

use crate::layout::{decode, encode, splice, Account, AccountModel};
use crate::offsets::ACCOUNT_LEN;

verus! {

/// A record's fields in wire order, as a plain tuple that the codec crates
/// encode without any derive.
pub type Fields = ([u8; 32], [u8; 32], u64, [u8; 32], u8, [u8; 7], u64, u64, [u8; 32]);

/// The record that a tuple of fields holds.
pub open spec fn fields_model(f: Fields) -> AccountModel {
    AccountModel {
        mint: f.0@,
        owner: f.1@,
        amount: f.2,
        delegate: f.3@,
        state: f.4,
        padding: f.5@,
        native_amount: f.6,
        delegated_amount: f.7,
        close_authority: f.8@,
    }
}

impl Account {
    /// The record that holds the given fields.
    pub fn from_fields(f: Fields) -> (r: Account)
        ensures
            r@ == fields_model(f),
    {
        Account {
            mint: f.0,
            owner: f.1,
            amount: f.2,
            delegate: f.3,
            state: f.4,
            padding: f.5,
            native_amount: f.6,
            delegated_amount: f.7,
            close_authority: f.8,
        }
    }

    /// The record's fields in wire order.
    pub fn to_fields(&self) -> (r: Fields)
        ensures
            fields_model(r) == self@,
    {
        (
            self.mint,
            self.owner,
            self.amount,
            self.delegate,
            self.state,
            self.padding,
            self.native_amount,
            self.delegated_amount,
            self.close_authority,
        )
    }
}

/// The error that bincode's decoding ends with.
#[verifier::external_type_specification]
#[verifier::external_body]
pub struct ExDecodeError(bincode::error::DecodeError);

/// The error that bincode's encoding ends with.
#[verifier::external_type_specification]
#[verifier::external_body]
pub struct ExEncodeError(bincode::error::EncodeError);

/// Relies on `bincode::decode_from_slice` with fixed-width integers, little
/// endian by default: it reads the fields in order from the front of the
/// slice, a byte array as its bytes with no length prefix and a `u64` as 8
/// bytes, reports the bytes read, and fails only where the slice runs out.
#[verifier::external_body]
pub(crate) fn bincode_decode(bytes: &[u8]) -> (r: Result<(Fields, usize), bincode::error::DecodeError>)
    ensures
        match r {
            Ok((f, n)) => bytes@.len() >= ACCOUNT_LEN && n == ACCOUNT_LEN && fields_model(f)
                == decode(bytes@),
            Err(_) => bytes@.len() < ACCOUNT_LEN,
        },
{
    bincode::decode_from_slice(bytes, bincode::config::standard().with_fixed_int_encoding())
}

/// Relies on `bincode::encode_into_slice` with fixed-width little-endian
/// integers: it writes the fields in order over the front of the slice and
/// leaves the rest; where the slice is too short it fails, possibly after a
/// partial write.
#[verifier::external_body]
pub(crate) fn bincode_encode(f: Fields, bytes: &mut [u8]) -> (r: Result<usize, bincode::error::EncodeError>)
    ensures
        old(bytes)@.len() >= ACCOUNT_LEN ==> r is Ok && final(bytes)@ == splice(
            old(bytes)@,
            0,
            encode(fields_model(f)),
        ),
        old(bytes)@.len() < ACCOUNT_LEN ==> r is Err,
        r is Ok ==> r->Ok_0 == ACCOUNT_LEN,
{
    bincode::encode_into_slice(f, bytes, bincode::config::standard().with_fixed_int_encoding())
}

/// The error that wincode's reading ends with.
#[verifier::external_type_specification]
#[verifier::external_body]
pub struct ExReadError(wincode::ReadError);

/// The error that wincode's writing ends with.
#[verifier::external_type_specification]
#[verifier::external_body]
pub struct ExWriteError(wincode::WriteError);

/// Relies on `wincode::deserialize` with the default configuration,
/// fixed-width little-endian integers: it reads the fields in order from the
/// front of the slice, a byte array as its bytes with no length prefix, and
/// fails only where the slice runs out.
#[verifier::external_body]
pub(crate) fn wincode_decode(bytes: &[u8]) -> (r: Result<Fields, wincode::ReadError>)
    ensures
        match r {
            Ok(f) => bytes@.len() >= ACCOUNT_LEN && fields_model(f) == decode(bytes@),
            Err(_) => bytes@.len() < ACCOUNT_LEN,
        },
{
    wincode::deserialize(bytes)
}

/// Relies on `wincode::Serialize::serialize_into` with the default
/// configuration: it writes the fields in order over the front of the slice
/// and leaves the rest; where the slice is too short it fails, possibly after
/// a partial write.
#[verifier::external_body]
pub(crate) fn wincode_encode(f: &Fields, bytes: &mut [u8]) -> (r: Result<(), wincode::WriteError>)
    ensures
        old(bytes)@.len() >= ACCOUNT_LEN ==> r is Ok && final(bytes)@ == splice(
            old(bytes)@,
            0,
            encode(fields_model(*f)),
        ),
        old(bytes)@.len() < ACCOUNT_LEN ==> r is Err,
{
    <Fields as wincode::Serialize>::serialize_into(bytes, f)
}

/// The error that borsh's reading and writing end with.
#[verifier::external_type_specification]
#[verifier::external_body]
pub struct ExIoError(std::io::Error);

/// Relies on `borsh::BorshDeserialize::deserialize`: it reads the fields in
/// order from the front of the slice, a byte array as its bytes with no length
/// prefix and a `u64` as 8 little-endian bytes, and fails only where the slice
/// runs out.
#[verifier::external_body]
pub(crate) fn borsh_decode(bytes: &[u8]) -> (r: Result<Fields, std::io::Error>)
    ensures
        match r {
            Ok(f) => bytes@.len() >= ACCOUNT_LEN && fields_model(f) == decode(bytes@),
            Err(_) => bytes@.len() < ACCOUNT_LEN,
        },
{
    let mut data = bytes;
    <Fields as borsh::BorshDeserialize>::deserialize(&mut data)
}

/// Relies on `borsh::BorshSerialize::serialize` into a byte slice: it writes
/// the fields in order over the front of the slice and leaves the rest; where
/// the slice is too short it fails, possibly after a partial write.
#[verifier::external_body]
pub(crate) fn borsh_encode(f: &Fields, bytes: &mut [u8]) -> (r: Result<(), std::io::Error>)
    ensures
        old(bytes)@.len() >= ACCOUNT_LEN ==> r is Ok && final(bytes)@ == splice(
            old(bytes)@,
            0,
            encode(fields_model(*f)),
        ),
        old(bytes)@.len() < ACCOUNT_LEN ==> r is Err,
{
    let mut data = bytes;
    borsh::BorshSerialize::serialize(f, &mut data)
}

/// The error that a checked cast of bytes ends with.
#[verifier::external_type_specification]
#[verifier::external_body]
pub struct ExPodCastError(bytemuck::PodCastError);

/// Relies on `bytemuck::try_from_bytes`: a slice whose length is not the 32
/// bytes of a key is refused; any other is viewed in place as the key it
/// holds. A key's alignment is 1, so no slice is refused for its address.
#[verifier::external_body]
pub(crate) fn bytemuck_key(bytes: &[u8]) -> (r: Result<&[u8; 32], bytemuck::PodCastError>)
    ensures
        match r {
            Ok(k) => bytes@.len() == 32 && k@ == bytes@,
            Err(_) => bytes@.len() != 32,
        },
{
    bytemuck::try_from_bytes::<[u8; 32]>(bytes)
}

/// Relies on `bytemuck::try_from_bytes`: a slice whose length is not the
/// record's is refused; any other is viewed in place as a byte array of that
/// length, whose alignment is 1.
#[verifier::external_body]
pub(crate) fn bytemuck_record(bytes: &[u8]) -> (r: Result<&[u8; ACCOUNT_LEN], bytemuck::PodCastError>)
    ensures
        match r {
            Ok(v) => bytes@.len() == ACCOUNT_LEN && v@ == bytes@,
            Err(_) => bytes@.len() != ACCOUNT_LEN,
        },
{
    bytemuck::try_from_bytes::<[u8; ACCOUNT_LEN]>(bytes)
}

/// Relies on `bytemuck::try_from_bytes_mut`: a slice whose length is not the
/// record's is refused and left as it is; any other is handed back as a byte
/// array of that length, alignment 1, that aliases the slice.
#[verifier::external_body]
pub(crate) fn bytemuck_record_mut(bytes: &mut [u8]) -> (r: Result<&mut [u8; ACCOUNT_LEN], bytemuck::PodCastError>)
    ensures
        match r {
            Ok(v) => old(bytes)@.len() == ACCOUNT_LEN && v@ == old(bytes)@ && final(bytes)@
                == final(v)@,
            Err(_) => old(bytes)@.len() != ACCOUNT_LEN && final(bytes)@ == old(bytes)@,
        },
{
    bytemuck::try_from_bytes_mut::<[u8; ACCOUNT_LEN]>(bytes)
}

/// Relies on `zerocopy::FromBytes::ref_from_bytes`: a slice whose length is
/// not the record's is refused; any other is viewed in place as a byte array
/// of that length, whose alignment is 1. The error, which carries the slice
/// back, is dropped.
#[verifier::external_body]
pub(crate) fn zerocopy_record(bytes: &[u8]) -> (r: Option<&[u8; ACCOUNT_LEN]>)
    ensures
        match r {
            Some(v) => bytes@.len() == ACCOUNT_LEN && v@ == bytes@,
            None => bytes@.len() != ACCOUNT_LEN,
        },
{
    <[u8; ACCOUNT_LEN] as zerocopy::FromBytes>::ref_from_bytes(bytes).ok()
}

/// Relies on `zerocopy::FromBytes::mut_from_bytes`: a slice whose length is
/// not the record's is refused and left as it is; any other is handed back as
/// a byte array of that length, alignment 1, that aliases the slice. The
/// error, which carries the slice back, is dropped.
#[verifier::external_body]
pub(crate) fn zerocopy_record_mut(bytes: &mut [u8]) -> (r: Option<&mut [u8; ACCOUNT_LEN]>)
    ensures
        match r {
            Some(v) => old(bytes)@.len() == ACCOUNT_LEN && v@ == old(bytes)@ && final(bytes)@
                == final(v)@,
            None => old(bytes)@.len() != ACCOUNT_LEN && final(bytes)@ == old(bytes)@,
        },
{
    <[u8; ACCOUNT_LEN] as zerocopy::FromBytes>::mut_from_bytes(bytes).ok()
}

} // verus!
