//! The record, its mathematical model and its canonical byte layout.
use vstd::bytes::*;
use vstd::prelude::*;

use crate::offsets::{
    ACCOUNT_LEN, AMOUNT, AMOUNT_SIZE, CLOSE_AUTHORITY, CLOSE_AUTHORITY_SIZE, DELEGATE,
    DELEGATED_AMOUNT, DELEGATED_AMOUNT_SIZE, DELEGATE_SIZE, MINT, MINT_SIZE, NATIVE_AMOUNT,
    NATIVE_AMOUNT_SIZE, OWNER, OWNER_SIZE, PADDING, PADDING_SIZE, STATE,
};

verus! {

/// A public key (32 bytes).
pub type Pubkey = [u8; 32];

/// What a record holds, with every key as a sequence of bytes.
pub ghost struct AccountModel {
    pub mint: Seq<u8>,
    pub owner: Seq<u8>,
    pub amount: u64,
    pub delegate: Seq<u8>,
    pub state: u8,
    pub padding: Seq<u8>,
    pub native_amount: u64,
    pub delegated_amount: u64,
    pub close_authority: Seq<u8>,
}

impl AccountModel {
    /// Every fixed-width field has its declared width.
    pub open spec fn wf(self) -> bool {
        &&& self.mint.len() == MINT_SIZE
        &&& self.owner.len() == OWNER_SIZE
        &&& self.delegate.len() == DELEGATE_SIZE
        &&& self.padding.len() == PADDING_SIZE
        &&& self.close_authority.len() == CLOSE_AUTHORITY_SIZE
    }
}

/// The `size` bytes of `s` that start at `off`.
pub open spec fn field(s: Seq<u8>, off: int, size: int) -> Seq<u8> {
    s.subrange(off, off + size)
}

/// `s` with the bytes from `off` on replaced by `t`.
pub open spec fn splice(s: Seq<u8>, off: int, t: Seq<u8>) -> Seq<u8> {
    s.subrange(0, off) + t + s.subrange(off + t.len(), s.len() as int)
}

/// The canonical encoding: the fields in declared order, integers little-endian.
pub open spec fn encode(m: AccountModel) -> Seq<u8> {
    m.mint + m.owner + spec_u64_to_le_bytes(m.amount) + m.delegate + seq![m.state] + m.padding
        + spec_u64_to_le_bytes(m.native_amount) + spec_u64_to_le_bytes(m.delegated_amount)
        + m.close_authority
}

/// The record that the first `ACCOUNT_LEN` bytes of `s` hold.
pub open spec fn decode(s: Seq<u8>) -> AccountModel {
    AccountModel {
        mint: field(s, MINT as int, MINT_SIZE as int),
        owner: field(s, OWNER as int, OWNER_SIZE as int),
        amount: spec_u64_from_le_bytes(field(s, AMOUNT as int, AMOUNT_SIZE as int)),
        delegate: field(s, DELEGATE as int, DELEGATE_SIZE as int),
        state: s[STATE as int],
        padding: field(s, PADDING as int, PADDING_SIZE as int),
        native_amount: spec_u64_from_le_bytes(
            field(s, NATIVE_AMOUNT as int, NATIVE_AMOUNT_SIZE as int),
        ),
        delegated_amount: spec_u64_from_le_bytes(
            field(s, DELEGATED_AMOUNT as int, DELEGATED_AMOUNT_SIZE as int),
        ),
        close_authority: field(s, CLOSE_AUTHORITY as int, CLOSE_AUTHORITY_SIZE as int),
    }
}

/// The owner key that an encoded record holds.
pub open spec fn owner_of(s: Seq<u8>) -> Seq<u8> {
    field(s, OWNER as int, OWNER_SIZE as int)
}

/// The amount that an encoded record holds.
pub open spec fn amount_of(s: Seq<u8>) -> u64 {
    spec_u64_from_le_bytes(field(s, AMOUNT as int, AMOUNT_SIZE as int))
}

/// Each field of an encoded well-formed record sits at its offset.
pub proof fn lemma_encode_fields(m: AccountModel)
    requires
        m.wf(),
    ensures
        encode(m).len() == ACCOUNT_LEN,
        decode(encode(m)) == m,
{
    lemma_auto_spec_u64_to_from_le_bytes();
    let s = encode(m);
    assert(field(s, MINT as int, MINT_SIZE as int) =~= m.mint);
    assert(field(s, OWNER as int, OWNER_SIZE as int) =~= m.owner);
    assert(field(s, AMOUNT as int, AMOUNT_SIZE as int) =~= spec_u64_to_le_bytes(m.amount));
    assert(field(s, DELEGATE as int, DELEGATE_SIZE as int) =~= m.delegate);
    assert(field(s, PADDING as int, PADDING_SIZE as int) =~= m.padding);
    assert(field(s, NATIVE_AMOUNT as int, NATIVE_AMOUNT_SIZE as int) =~= spec_u64_to_le_bytes(
        m.native_amount,
    ));
    assert(field(s, DELEGATED_AMOUNT as int, DELEGATED_AMOUNT_SIZE as int) =~= spec_u64_to_le_bytes(
        m.delegated_amount,
    ));
    assert(field(s, CLOSE_AUTHORITY as int, CLOSE_AUTHORITY_SIZE as int) =~= m.close_authority);
}

/// Decoding a buffer of the record's length and encoding the result gives the
/// buffer back.
pub proof fn lemma_decode_encode(s: Seq<u8>)
    requires
        s.len() == ACCOUNT_LEN,
    ensures
        decode(s).wf(),
        encode(decode(s)) == s,
{
    lemma_auto_spec_u64_to_from_le_bytes();
    let m = decode(s);
    assert(spec_u64_to_le_bytes(m.amount) == field(s, AMOUNT as int, AMOUNT_SIZE as int));
    assert(spec_u64_to_le_bytes(m.native_amount) == field(
        s,
        NATIVE_AMOUNT as int,
        NATIVE_AMOUNT_SIZE as int,
    ));
    assert(spec_u64_to_le_bytes(m.delegated_amount) == field(
        s,
        DELEGATED_AMOUNT as int,
        DELEGATED_AMOUNT_SIZE as int,
    ));
    assert(encode(m) =~= s);
}

/// A record is read from the first `ACCOUNT_LEN` bytes alone.
pub proof fn lemma_decode_prefix(s: Seq<u8>)
    requires
        s.len() >= ACCOUNT_LEN,
    ensures
        decode(s) == decode(s.subrange(0, ACCOUNT_LEN as int)),
{
    let t = s.subrange(0, ACCOUNT_LEN as int);
    assert(field(t, MINT as int, MINT_SIZE as int) =~= field(s, MINT as int, MINT_SIZE as int));
    assert(field(t, OWNER as int, OWNER_SIZE as int) =~= field(s, OWNER as int, OWNER_SIZE as int));
    assert(field(t, AMOUNT as int, AMOUNT_SIZE as int) =~= field(
        s,
        AMOUNT as int,
        AMOUNT_SIZE as int,
    ));
    assert(field(t, DELEGATE as int, DELEGATE_SIZE as int) =~= field(
        s,
        DELEGATE as int,
        DELEGATE_SIZE as int,
    ));
    assert(field(t, PADDING as int, PADDING_SIZE as int) =~= field(
        s,
        PADDING as int,
        PADDING_SIZE as int,
    ));
    assert(field(t, NATIVE_AMOUNT as int, NATIVE_AMOUNT_SIZE as int) =~= field(
        s,
        NATIVE_AMOUNT as int,
        NATIVE_AMOUNT_SIZE as int,
    ));
    assert(field(t, DELEGATED_AMOUNT as int, DELEGATED_AMOUNT_SIZE as int) =~= field(
        s,
        DELEGATED_AMOUNT as int,
        DELEGATED_AMOUNT_SIZE as int,
    ));
    assert(field(t, CLOSE_AUTHORITY as int, CLOSE_AUTHORITY_SIZE as int) =~= field(
        s,
        CLOSE_AUTHORITY as int,
        CLOSE_AUTHORITY_SIZE as int,
    ));
}

/// `n` zero bytes.
pub open spec fn zeros(n: nat) -> Seq<u8> {
    Seq::new(n, |i: int| 0u8)
}

/// The all-zero record.
pub open spec fn zero_model() -> AccountModel {
    AccountModel {
        mint: zeros(MINT_SIZE as nat),
        owner: zeros(OWNER_SIZE as nat),
        amount: 0,
        delegate: zeros(DELEGATE_SIZE as nat),
        state: 0,
        padding: zeros(PADDING_SIZE as nat),
        native_amount: 0,
        delegated_amount: 0,
        close_authority: zeros(CLOSE_AUTHORITY_SIZE as nat),
    }
}

/// A token account record, field order being the wire order.
#[derive(Clone, Copy, Debug, PartialEq, Eq)]
pub struct Account {
    /// The mint associated with this account.
    pub mint: Pubkey,
    /// The owner of this account.
    pub owner: Pubkey,
    /// The amount of tokens this account holds.
    pub amount: u64,
    /// The delegate for this account.
    pub delegate: Pubkey,
    /// The account's state.
    pub state: u8,
    /// Reserved bytes, kept as they are read.
    pub padding: [u8; 7],
    /// Native token amount.
    pub native_amount: u64,
    /// The amount delegated.
    pub delegated_amount: u64,
    /// The close authority.
    pub close_authority: Pubkey,
}

impl View for Account {
    type V = AccountModel;

    open spec fn view(&self) -> AccountModel {
        AccountModel {
            mint: self.mint@,
            owner: self.owner@,
            amount: self.amount,
            delegate: self.delegate@,
            state: self.state,
            padding: self.padding@,
            native_amount: self.native_amount,
            delegated_amount: self.delegated_amount,
            close_authority: self.close_authority@,
        }
    }
}

impl Default for Account {
    /// The all-zero record.
    fn default() -> (r: Self)
        ensures
            r@ == zero_model(),
            encode(r@) == zeros(ACCOUNT_LEN as nat),
    {
        let r = Account {
            mint: [0u8; 32],
            owner: [0u8; 32],
            amount: 0,
            delegate: [0u8; 32],
            state: 0,
            padding: [0u8; 7],
            native_amount: 0,
            delegated_amount: 0,
            close_authority: [0u8; 32],
        };
        proof {
            assert(spec_u64_to_le_bytes(0) =~= zeros(8)) by {
                spec_u64_to_le_bytes_to_open(0);
                assert((0u64 & 0xff) == 0 && ((0u64 >> 8) & 0xff) == 0 && ((0u64 >> 16) & 0xff) == 0
                    && ((0u64 >> 24) & 0xff) == 0 && ((0u64 >> 32) & 0xff) == 0 && ((0u64 >> 40)
                    & 0xff) == 0 && ((0u64 >> 48) & 0xff) == 0 && ((0u64 >> 56) & 0xff) == 0)
                    by (bit_vector);
            }
            assert(r.mint@ =~= zeros(32));
            assert(r.owner@ =~= zeros(32));
            assert(r.delegate@ =~= zeros(32));
            assert(r.padding@ =~= zeros(7));
            assert(r.close_authority@ =~= zeros(32));
            assert(encode(r@) =~= zeros(ACCOUNT_LEN as nat));
        }
        r
    }
}

/// Copies the `N` bytes of `bytes` that start at `off`.
pub fn read_array<const N: usize>(bytes: &[u8], off: usize) -> (r: [u8; N])
    requires
        off + N <= bytes@.len(),
    ensures
        r@ == field(bytes@, off as int, N as int),
{
    let len: usize = bytes.len();
    let mut r: [u8; N] = [0u8; N];
    let mut i: usize = 0;
    while i < N
        invariant
            0 <= i <= N,
            off + N <= bytes@.len() == len,
            r@.len() == N,
            forall|j: int| 0 <= j < i ==> r@[j] == bytes@[off + j],
        decreases N - i,
    {
        r[i] = bytes[off + i];
        i += 1;
    }
    assert(r@ =~= field(bytes@, off as int, N as int));
    r
}

/// Reads the little-endian `u64` that starts at `off`.
pub fn read_u64(bytes: &[u8], off: usize) -> (r: u64)
    requires
        off + 8 <= bytes@.len(),
    ensures
        r == spec_u64_from_le_bytes(field(bytes@, off as int, 8)),
{
    let len: usize = bytes.len();
    assert(off + 8 <= len);
    u64_from_le_bytes(&bytes[off..off + 8])
}

/// Overwrites the bytes of `bytes` from `off` on with `src`.
pub fn write_bytes(bytes: &mut [u8], off: usize, src: &[u8])
    requires
        off + src@.len() <= old(bytes)@.len(),
    ensures
        final(bytes)@ == splice(old(bytes)@, off as int, src@),
{
    let len: usize = bytes.len();
    let mut i: usize = 0;
    while i < src.len()
        invariant
            0 <= i <= src@.len(),
            off + src@.len() <= old(bytes)@.len() == len,
            bytes@.len() == old(bytes)@.len(),
            forall|j: int| 0 <= j < off ==> bytes@[j] == old(bytes)@[j],
            forall|j: int| off + src@.len() <= j < bytes@.len() ==> bytes@[j] == old(bytes)@[j],
            forall|j: int| 0 <= j < i ==> bytes@[off + j] == src@[j],
            forall|j: int| off + i <= j < off + src@.len() ==> bytes@[j] == old(bytes)@[j],
        decreases src@.len() - i,
    {
        bytes[off + i] = src[i];
        i += 1;
    }
    assert(bytes@ =~= splice(old(bytes)@, off as int, src@));
}

/// Appends `src` to `out`.
fn push_all(out: &mut Vec<u8>, src: &[u8])
    ensures
        final(out)@ == old(out)@ + src@,
{
    let mut i: usize = 0;
    while i < src.len()
        invariant
            0 <= i <= src@.len(),
            out@ == old(out)@ + src@.subrange(0, i as int),
        decreases src@.len() - i,
    {
        out.push(src[i]);
        i += 1;
        assert(src@.subrange(0, i as int) =~= src@.subrange(0, i - 1) + seq![src@[i - 1]]);
    }
    assert(src@.subrange(0, src@.len() as int) =~= src@);
}

impl Account {
    /// The record that the first `ACCOUNT_LEN` bytes of `bytes` hold.
    pub fn read_from(bytes: &[u8]) -> (r: Account)
        requires
            bytes@.len() >= ACCOUNT_LEN,
        ensures
            r@ == decode(bytes@),
    {
        Account {
            mint: read_array(bytes, MINT),
            owner: read_array(bytes, OWNER),
            amount: read_u64(bytes, AMOUNT),
            delegate: read_array(bytes, DELEGATE),
            state: bytes[STATE],
            padding: read_array(bytes, PADDING),
            native_amount: read_u64(bytes, NATIVE_AMOUNT),
            delegated_amount: read_u64(bytes, DELEGATED_AMOUNT),
            close_authority: read_array(bytes, CLOSE_AUTHORITY),
        }
    }

    /// The canonical encoding of the record.
    pub fn to_bytes(&self) -> (r: Vec<u8>)
        ensures
            r@ == encode(self@),
            r@.len() == ACCOUNT_LEN,
    {
        let mut out: Vec<u8> = Vec::new();
        push_all(&mut out, self.mint.as_slice());
        push_all(&mut out, self.owner.as_slice());
        push_all(&mut out, u64_to_le_bytes(self.amount).as_slice());
        push_all(&mut out, self.delegate.as_slice());
        out.push(self.state);
        push_all(&mut out, self.padding.as_slice());
        push_all(&mut out, u64_to_le_bytes(self.native_amount).as_slice());
        push_all(&mut out, u64_to_le_bytes(self.delegated_amount).as_slice());
        push_all(&mut out, self.close_authority.as_slice());
        proof {
            lemma_encode_fields(self@);
            assert(out@ =~= encode(self@));
        }
        out
    }

    /// Writes the canonical encoding over the first `ACCOUNT_LEN` bytes of
    /// `bytes`; the bytes after them stay as they are.
    pub fn write_to(&self, bytes: &mut [u8])
        requires
            old(bytes)@.len() >= ACCOUNT_LEN,
        ensures
            final(bytes)@ == splice(old(bytes)@, 0, encode(self@)),
    {
        let encoded = self.to_bytes();
        write_bytes(bytes, 0, encoded.as_slice());
    }
}

} // verus!
