use tide::codec::{
    amount_field, decode_record, decode_sequential, encode_record, owner_field,
    owner_field_checked, set_amount_field, view, view_mut, Strategy,
};
use tide::error::ProgramError;
use tide::fixture::{initial_record, instruction_accounts, instruction_data, INITIAL_AMOUNT};
use tide::instruction::Instruction;
use tide::layout::{Account, Pubkey};
use tide::offsets::{ACCOUNT_LEN, AMOUNT, OWNER, STATE};
use tide::processor::{
    process_full, process_instruction, process_read_owner, process_update_amount, AccountData,
    Program, FULL_STATE, NEW_AMOUNT,
};

type Fields = (
    [u8; 32],
    [u8; 32],
    u64,
    [u8; 32],
    u8,
    [u8; 7],
    u64,
    u64,
    [u8; 32],
);

const OWNER_KEY: Pubkey = [9u8; 32];
const OTHER_KEY: Pubkey = [4u8; 32];

const STRATEGIES: [Strategy; 6] = [
    Strategy::Sequential,
    Strategy::Schema,
    Strategy::CheckedCast,
    Strategy::Unchecked,
    Strategy::Descriptor,
    Strategy::LayoutCast,
];

fn programs() -> Vec<Program> {
    let mut out = Vec::new();
    for strategy in STRATEGIES {
        for field_access in [false, true] {
            out.push(Program {
                strategy,
                field_access,
                empty_is_full: false,
            });
        }
    }
    out
}

fn sample_account() -> Account {
    let mut a = Account::default();
    a.mint = [1u8; 32];
    a.owner = OWNER_KEY;
    a.amount = 0x0102_0304_0506_0708;
    a.delegate = [3u8; 32];
    a.state = 5;
    a.padding = [6, 7, 8, 9, 10, 11, 12];
    a.native_amount = 42;
    a.delegated_amount = u64::MAX;
    a.close_authority = [13u8; 32];
    a
}

fn fields_of(a: &Account) -> Fields {
    (
        a.mint,
        a.owner,
        a.amount,
        a.delegate,
        a.state,
        a.padding,
        a.native_amount,
        a.delegated_amount,
        a.close_authority,
    )
}

fn expected_after_full(before: &[u8]) -> Vec<u8> {
    let mut out = before.to_vec();
    out[STATE] = 255;
    out[AMOUNT..AMOUNT + 8].copy_from_slice(&1_000_000_000u64.to_le_bytes());
    out
}

#[test]
fn layout_offsets_and_length() {
    let bytes = sample_account().to_bytes();
    assert_eq!(bytes.len(), 160);
    assert_eq!(&bytes[0..32], &[1u8; 32]);
    assert_eq!(&bytes[32..64], &OWNER_KEY);
    assert_eq!(&bytes[64..72], &[8, 7, 6, 5, 4, 3, 2, 1]);
    assert_eq!(&bytes[72..104], &[3u8; 32]);
    assert_eq!(bytes[104], 5);
    assert_eq!(&bytes[105..112], &[6, 7, 8, 9, 10, 11, 12]);
    assert_eq!(&bytes[112..120], &42u64.to_le_bytes());
    assert_eq!(&bytes[120..128], &[255u8; 8]);
    assert_eq!(&bytes[128..160], &[13u8; 32]);
    assert_eq!(ACCOUNT_LEN, 160);
    assert_eq!(OWNER, 32);
    assert_eq!(STATE, 104);
}

#[test]
fn layout_matches_bincode_fixed_int() {
    let a = sample_account();
    let config = bincode::config::standard().with_fixed_int_encoding();
    let encoded = bincode::encode_to_vec(fields_of(&a), config).unwrap();
    assert_eq!(encoded, a.to_bytes());
}

#[test]
fn layout_matches_bincode_legacy_serde() {
    let a = sample_account();
    let encoded = bincode::serde::encode_to_vec(fields_of(&a), bincode::config::legacy()).unwrap();
    assert_eq!(encoded, a.to_bytes());
}

#[test]
fn layout_matches_borsh() {
    let a = sample_account();
    let encoded = borsh::to_vec(&fields_of(&a)).unwrap();
    assert_eq!(encoded, a.to_bytes());
}

#[test]
fn layout_matches_wincode() {
    let a = sample_account();
    let encoded = wincode::serialize(&fields_of(&a)).unwrap();
    assert_eq!(encoded, a.to_bytes());
}

#[test]
fn default_record_is_all_zero() {
    assert_eq!(Account::default().to_bytes(), vec![0u8; 160]);
}

#[test]
fn round_trip_every_strategy() {
    let a = sample_account();
    for s in STRATEGIES {
        let mut buf = vec![0xAAu8; 160];
        assert_eq!(encode_record(s, &a, &mut buf), Ok(()));
        assert_eq!(decode_record(s, &buf), Ok(a));
    }
}

#[test]
fn owning_strategies_keep_bytes_after_the_record() {
    let a = sample_account();
    for s in [Strategy::Sequential, Strategy::Schema, Strategy::Descriptor] {
        let mut buf = vec![0xAAu8; 170];
        assert_eq!(encode_record(s, &a, &mut buf), Ok(()));
        assert_eq!(&buf[..160], a.to_bytes().as_slice());
        assert_eq!(&buf[160..], &[0xAAu8; 10]);
        assert_eq!(decode_record(s, &buf), Ok(a));
    }
}

#[test]
fn cast_strategies_need_exact_length() {
    let a = sample_account();
    for s in [Strategy::CheckedCast, Strategy::Unchecked, Strategy::LayoutCast] {
        let mut buf = vec![0xAAu8; 161];
        assert_eq!(encode_record(s, &a, &mut buf), Err(ProgramError::EncodeFailure));
        assert_eq!(buf, vec![0xAAu8; 161]);
        assert_eq!(decode_record(s, &buf), Err(ProgramError::InvalidAccountData));
    }
}

#[test]
fn encode_into_short_buffer_fails_untouched() {
    let a = sample_account();
    for s in STRATEGIES {
        let mut buf = vec![0x11u8; 159];
        assert_eq!(encode_record(s, &a, &mut buf), Err(ProgramError::EncodeFailure));
        assert_eq!(buf, vec![0x11u8; 159]);
    }
}

#[test]
fn transmute_checks_length() {
    let bytes = sample_account().to_bytes();
    assert_eq!(Account::transmute_unchecked(&bytes), Ok(sample_account()));
    assert_eq!(
        Account::transmute_unchecked(&bytes[..159]),
        Err(ProgramError::InvalidAccountData)
    );
    let mut buf = bytes.clone();
    {
        let view = Account::transmute_unchecked_mut(&mut buf).unwrap();
        view[STATE] = 77;
    }
    assert_eq!(buf[STATE], 77);
    let mut short = vec![0u8; 10];
    assert_eq!(
        Account::transmute_unchecked_mut(&mut short).map(|v| v.len()),
        Err(ProgramError::InvalidAccountData)
    );
}

#[test]
fn offset_access_matches_whole_decode() {
    let bytes = sample_account().to_bytes();
    let decoded = decode_record(Strategy::Sequential, &bytes).unwrap();
    assert_eq!(owner_field(&bytes), Ok(decoded.owner));
    assert_eq!(amount_field(&bytes), Ok(decoded.amount));
    assert_eq!(amount_field(&bytes), Ok(0x0102_0304_0506_0708));
}

#[test]
fn offset_access_on_short_buffers() {
    let bytes = sample_account().to_bytes();
    assert_eq!(owner_field(&bytes[..64]), Ok(OWNER_KEY));
    assert_eq!(owner_field(&bytes[..63]), Err(ProgramError::InvalidAccountData));
    assert_eq!(amount_field(&bytes[..71]), Err(ProgramError::InvalidAccountData));
    let mut buf = bytes[..72].to_vec();
    assert_eq!(set_amount_field(&mut buf, 9), Ok(()));
    assert_eq!(&buf[64..72], &9u64.to_le_bytes());
    assert_eq!(&buf[..64], &bytes[..64]);
    let mut short = bytes[..71].to_vec();
    assert_eq!(set_amount_field(&mut short, 9), Err(ProgramError::InvalidAccountData));
    assert_eq!(short, bytes[..71].to_vec());
}

#[test]
fn scenario_full_with_owner_succeeds() {
    for program in programs() {
        let before = initial_record(&OWNER_KEY);
        let mut buf = before.clone();
        assert_eq!(process_full(program.strategy, &mut buf, &OWNER_KEY), Ok(()));
        assert_eq!(buf, expected_after_full(&before));
        let after = Account::transmute_unchecked(&buf).unwrap();
        assert_eq!(after.state, 255);
        assert_eq!(after.amount, 1_000_000_000);
        assert_eq!(after.owner, OWNER_KEY);
        assert_eq!(after.mint, [0u8; 32]);
    }
}

#[test]
fn scenario_full_with_other_authority_fails() {
    for program in programs() {
        let before = initial_record(&OWNER_KEY);
        let mut buf = before.clone();
        assert_eq!(
            process_full(program.strategy, &mut buf, &OTHER_KEY),
            Err(ProgramError::IncorrectAuthority)
        );
        assert_eq!(buf, before);
    }
}

#[test]
fn scenario_update_amount_needs_no_authority() {
    for program in programs() {
        let before = initial_record(&OWNER_KEY);
        let mut buf = before.clone();
        assert_eq!(
            process_update_amount(program.strategy, program.field_access, &mut buf),
            Ok(())
        );
        let mut expected = before.clone();
        expected[64..72].copy_from_slice(&1_000_000_000u64.to_le_bytes());
        assert_eq!(buf, expected);
        assert_eq!(buf[STATE], 0);
    }
}

#[test]
fn scenario_full_on_short_buffer_fails() {
    for s in STRATEGIES {
        let mut buf = initial_record(&OWNER_KEY)[..159].to_vec();
        let before = buf.clone();
        assert_eq!(
            process_full(s, &mut buf, &OWNER_KEY),
            Err(ProgramError::InvalidAccountData)
        );
        assert_eq!(buf, before);
    }
}

#[test]
fn strategies_agree_on_every_operation() {
    let start = sample_account().to_bytes();
    for op in [Instruction::Full, Instruction::ReadOwner, Instruction::UpdateAmount] {
        for authority in [OWNER_KEY, OTHER_KEY] {
            let mut outcomes = Vec::new();
            for program in programs() {
                let mut accounts = vec![
                    AccountData { address: [1u8; 32], data: start.clone() },
                    AccountData { address: authority, data: Vec::new() },
                ];
                let r = process_instruction(&program, &mut accounts, &instruction_data(op));
                outcomes.push((r, accounts[0].data.clone()));
            }
            for o in &outcomes {
                assert_eq!(o, &outcomes[0]);
            }
        }
    }
}

#[test]
fn authorization_depends_on_owner() {
    let bytes = initial_record(&OWNER_KEY);
    for program in programs() {
        assert_eq!(
            process_read_owner(program.strategy, program.field_access, &bytes, &OWNER_KEY),
            Ok(())
        );
        assert_eq!(
            process_read_owner(program.strategy, program.field_access, &bytes, &OTHER_KEY),
            Err(ProgramError::IncorrectAuthority)
        );
    }
}

#[test]
fn read_owner_leaves_buffer_unchanged() {
    for program in programs() {
        for authority in [OWNER_KEY, OTHER_KEY] {
            let mut accounts = instruction_accounts(&[2u8; 32], &OWNER_KEY);
            accounts[1].address = authority;
            let before = accounts.clone();
            let _ = process_instruction(
                &program,
                &mut accounts,
                &instruction_data(Instruction::ReadOwner),
            );
            assert_eq!(accounts, before);
        }
    }
}

#[test]
fn field_access_reads_owner_of_partial_buffer() {
    let bytes = initial_record(&OWNER_KEY)[..100].to_vec();
    assert_eq!(
        process_read_owner(Strategy::CheckedCast, true, &bytes, &OWNER_KEY),
        Ok(())
    );
    assert_eq!(
        process_read_owner(Strategy::CheckedCast, false, &bytes, &OWNER_KEY),
        Err(ProgramError::InvalidAccountData)
    );
    let mut buf = bytes.clone();
    assert_eq!(process_update_amount(Strategy::Unchecked, true, &mut buf), Ok(()));
    assert_eq!(&buf[64..72], &NEW_AMOUNT.to_le_bytes());
}

#[test]
fn too_few_accounts() {
    let program = programs()[0];
    let mut accounts = vec![AccountData { address: [1u8; 32], data: initial_record(&OWNER_KEY) }];
    let before = accounts.clone();
    assert_eq!(
        process_instruction(&program, &mut accounts, &[0]),
        Err(ProgramError::NotEnoughAccountKeys)
    );
    assert_eq!(accounts, before);
}

#[test]
fn unknown_or_missing_opcode() {
    let program = programs()[0];
    let mut accounts = instruction_accounts(&[1u8; 32], &OWNER_KEY);
    let before = accounts.clone();
    assert_eq!(
        process_instruction(&program, &mut accounts, &[3]),
        Err(ProgramError::InvalidInstructionData)
    );
    assert_eq!(
        process_instruction(&program, &mut accounts, &[]),
        Err(ProgramError::InvalidInstructionData)
    );
    assert_eq!(accounts, before);
    assert_eq!(Instruction::try_from_slice(&[1, 9]), Ok(Instruction::ReadOwner));
    assert_eq!(Instruction::try_from_slice(&[]), Err(ProgramError::InvalidInstructionData));
}

#[test]
fn empty_payload_selects_full_when_configured() {
    let program = Program {
        strategy: Strategy::Descriptor,
        field_access: false,
        empty_is_full: true,
    };
    let mut accounts = instruction_accounts(&[1u8; 32], &OWNER_KEY);
    let before = accounts[0].data.clone();
    assert_eq!(process_instruction(&program, &mut accounts, &[]), Ok(()));
    assert_eq!(accounts[0].data, expected_after_full(&before));
    assert_eq!(
        process_instruction(&program, &mut accounts, &[7]),
        Err(ProgramError::InvalidInstructionData)
    );
}

#[test]
fn fixture_values() {
    let accounts = instruction_accounts(&[1u8; 32], &OWNER_KEY);
    assert_eq!(accounts.len(), 2);
    assert_eq!(accounts[1].address, OWNER_KEY);
    assert!(accounts[1].data.is_empty());
    let record = Account::transmute_unchecked(&accounts[0].data).unwrap();
    assert_eq!(record.owner, OWNER_KEY);
    assert_eq!(record.amount, INITIAL_AMOUNT);
    assert_eq!(record.amount, 500_000_000);
    assert_eq!(record.state, 0);
    assert_eq!(instruction_data(Instruction::UpdateAmount), vec![2]);
    assert_eq!(Instruction::Full.to_byte(), 0);
    assert_eq!(FULL_STATE, 255);
}

#[test]
fn checked_owner_read_goes_through_cast() {
    let bytes = sample_account().to_bytes();
    assert_eq!(owner_field_checked(&bytes), Ok(OWNER_KEY));
    let mut other = bytes.clone();
    other[40] = 0;
    let mut expected = OWNER_KEY;
    expected[8] = 0;
    assert_eq!(owner_field_checked(&other), Ok(expected));
    assert_eq!(owner_field_checked(&bytes[..64]), Ok(OWNER_KEY));
    assert_eq!(
        owner_field_checked(&bytes[..63]),
        Err(ProgramError::InvalidAccountData)
    );
}

#[test]
fn sequential_decode_reports_bytes_consumed() {
    let a = sample_account();
    let mut buf = a.to_bytes();
    assert_eq!(decode_sequential(&buf), Ok((a, 160)));
    buf.extend_from_slice(&[0xEEu8; 40]);
    assert_eq!(decode_sequential(&buf), Ok((a, 160)));
    assert_eq!(
        decode_sequential(&buf[..100]),
        Err(ProgramError::InvalidAccountData)
    );
}

#[test]
fn borrowed_views_check_length() {
    let bytes = sample_account().to_bytes();
    for s in [Strategy::CheckedCast, Strategy::Unchecked, Strategy::LayoutCast] {
        assert_eq!(view(s, &bytes), Ok(bytes.as_slice()));
        assert_eq!(view(s, &bytes[..159]), Err(ProgramError::InvalidAccountData));
        let mut longer = bytes.clone();
        longer.push(0);
        assert!(view_mut(s, &mut longer).is_err());
        let mut buf = bytes.clone();
        {
            let v = view_mut(s, &mut buf).unwrap();
            v[0] = 0x55;
        }
        assert_eq!(buf[0], 0x55);
        assert_eq!(&buf[1..], &bytes[1..]);
    }
}
