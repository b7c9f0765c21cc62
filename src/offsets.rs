//! Byte offsets and sizes of the fields of an encoded account record.
use vstd::prelude::*;

verus! {

pub const MINT: usize = 0;

pub const MINT_SIZE: usize = 32;

pub const OWNER: usize = 32;

pub const OWNER_SIZE: usize = 32;

pub const AMOUNT: usize = 64;

pub const AMOUNT_SIZE: usize = 8;

pub const DELEGATE: usize = 72;

pub const DELEGATE_SIZE: usize = 32;

pub const STATE: usize = 104;

pub const STATE_SIZE: usize = 1;

pub const PADDING: usize = 105;

pub const PADDING_SIZE: usize = 7;

pub const NATIVE_AMOUNT: usize = 112;

pub const NATIVE_AMOUNT_SIZE: usize = 8;

pub const DELEGATED_AMOUNT: usize = 120;

pub const DELEGATED_AMOUNT_SIZE: usize = 8;

pub const CLOSE_AUTHORITY: usize = 128;

pub const CLOSE_AUTHORITY_SIZE: usize = 32;

/// Total length of an encoded record.
pub const ACCOUNT_LEN: usize = 160;

} // verus!
