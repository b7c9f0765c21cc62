use tide::codec::Strategy;
use tide::fixture::{instruction_accounts, instruction_data};
use tide::instruction::Instruction;
use tide::layout::{Account, Pubkey};
use tide::processor::{process_instruction, AccountData, Program};
use zerocopy::FromBytes;

/// The fields of a record in wire order, as the codec crates see them.
type Fields = (
    [u8; 32],
    [u8; 32],
    u64,
    [u8; 32],
    u8,
    [u8; 7],
    u64,
    u64,
    [u8; 32],
);

const RECORD_ADDRESS: Pubkey = [7u8; 32];
const OWNER: Pubkey = [9u8; 32];

fn run(program: Program) -> Vec<AccountData> {
    let mut accounts = instruction_accounts(&RECORD_ADDRESS, &OWNER);
    let data = instruction_data(Instruction::Full);
    let result = process_instruction(&program, &mut accounts, &data);
    assert!(result.is_ok());
    accounts
}

#[test]
fn test_account_with_bincode() {
    let program = Program {
        strategy: Strategy::Sequential,
        field_access: false,
        empty_is_full: false,
    };
    let accounts = run(program);
    let data = &accounts[0].data;
    let config = bincode::config::standard().with_fixed_int_encoding();
    let (account, _): (Fields, usize) = bincode::decode_from_slice(data, config).unwrap();

    assert_eq!(account.4, 255);
    assert_eq!(account.2, 1_000_000_000);
}

#[test]
fn test_account_with_borsh() {
    let program = Program {
        strategy: Strategy::Descriptor,
        field_access: false,
        empty_is_full: true,
    };
    let accounts = run(program);
    let mut data = accounts[0].data.as_slice();
    let account = <Fields as borsh::BorshDeserialize>::deserialize(&mut data).unwrap();

    assert_eq!(account.4, 255);
    assert_eq!(account.2, 1_000_000_000);
}

#[test]
fn test_account_with_bytemuck() {
    let program = Program {
        strategy: Strategy::CheckedCast,
        field_access: true,
        empty_is_full: false,
    };
    let accounts = run(program);
    let data = accounts[0].data.as_slice();
    let state: u8 = *bytemuck::from_bytes::<u8>(&data[104..105]);
    let amount: u64 = bytemuck::pod_read_unaligned::<u64>(&data[64..72]);

    assert_eq!(state, 255);
    assert_eq!(amount, 1_000_000_000);
}

#[test]
fn test_account_with_transmute() {
    let program = Program {
        strategy: Strategy::Unchecked,
        field_access: true,
        empty_is_full: false,
    };
    let accounts = run(program);
    let data = accounts[0].data.as_slice();
    let account = Account::transmute_unchecked(data).unwrap();

    assert_eq!(account.state, 255);
    assert_eq!(account.amount, 1_000_000_000);
}

#[test]
fn test_account_with_wincode() {
    let program = Program {
        strategy: Strategy::Schema,
        field_access: false,
        empty_is_full: false,
    };
    let accounts = run(program);
    let data = &accounts[0].data;
    let account: Fields = wincode::deserialize(data).unwrap();

    assert_eq!(account.4, 255);
    assert_eq!(account.2, 1_000_000_000);
}

#[test]
fn test_account_with_zerocopy() {
    let program = Program {
        strategy: Strategy::LayoutCast,
        field_access: false,
        empty_is_full: true,
    };
    let accounts = run(program);
    let data = &accounts[0].data;
    let state = u8::read_from_bytes(&data[104..105]).unwrap();
    let amount = u64::read_from_bytes(&data[64..72]).unwrap();

    assert_eq!(state, 255);
    assert_eq!(amount, 1_000_000_000);
}
