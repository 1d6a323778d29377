use solana_escrow::error::{EscrowError, ProgramError};
use solana_escrow::instruction::EscrowInstruction;
use solana_escrow::processor::Processor;
use solana_escrow::runtime::{keys_equal, Account};
use solana_escrow::state::{Escrow, ESCROW_LEN};

const RENT_MINIMUM_FOR_RECORD: u64 = 1_621_680;

fn rent_data(rate: u64, threshold: f64) -> Vec<u8> {
    let mut d = rate.to_le_bytes().to_vec();
    d.extend_from_slice(&threshold.to_le_bytes());
    d.push(50);
    d
}

fn account(key: u8, owner: [u8; 32], lamports: u64, data: Vec<u8>, signer: bool) -> Account {
    Account {
        key: [key; 32],
        is_signer: signer,
        is_writable: true,
        lamports,
        data,
        owner,
        executable: false,
        rent_epoch: 0,
    }
}

fn token_owner() -> [u8; 32] {
    spl_token::id().to_bytes()
}

fn setup() -> Vec<Account> {
    let program = [9u8; 32];
    let mut rent = account(5, [0u8; 32], 1, rent_data(3480, 2.0), false);
    rent.key = solana_program::sysvar::rent::id().to_bytes();
    vec![
        account(1, [0u8; 32], 10, vec![], true),
        account(2, token_owner(), 10, vec![0u8; 165], false),
        account(3, token_owner(), 10, vec![0u8; 165], false),
        account(4, program, RENT_MINIMUM_FOR_RECORD, vec![0u8; ESCROW_LEN], false),
        rent,
    ]
}

fn init_bytes(amount: u64) -> Vec<u8> {
    let mut d = vec![0u8];
    d.extend_from_slice(&amount.to_le_bytes());
    d
}

fn sample_record() -> Escrow {
    Escrow {
        is_initialized: true,
        initializer_pubkey: [1u8; 32],
        temp_token_account_pubkey: [2u8; 32],
        initializer_account_to_receive_token_pubkey: [3u8; 32],
        expected_amount: 0x0102_0304_0506_0708,
    }
}

#[test]
fn error_codes_follow_declaration_order() {
    assert_eq!(EscrowError::InvalidInstruction.code(), 0);
    assert_eq!(EscrowError::MissingRequiredSignature.code(), 1);
    assert_eq!(EscrowError::NotRentExempt.code(), 2);
    assert_eq!(ProgramError::from(EscrowError::NotRentExempt), ProgramError::Custom(2));
}

#[test]
fn unknown_tags_are_rejected() {
    for tag in 1u8..=255 {
        let mut input = vec![tag];
        input.extend_from_slice(&7u64.to_le_bytes());
        assert_eq!(EscrowInstruction::unpack(&input), Err(ProgramError::Custom(0)));
    }
    assert_eq!(EscrowInstruction::unpack(&[]), Err(ProgramError::Custom(0)));
}

#[test]
fn short_payload_is_rejected() {
    for n in 0..8usize {
        let mut input = vec![0u8];
        input.extend(std::iter::repeat(0xffu8).take(n));
        assert_eq!(EscrowInstruction::unpack(&input), Err(ProgramError::Custom(0)));
    }
}

#[test]
fn init_escrow_amount_is_little_endian_and_trailing_bytes_ignored() {
    let input = [0u8, 0x08, 0x07, 0x06, 0x05, 0x04, 0x03, 0x02, 0x01, 0xaa, 0xbb];
    assert_eq!(
        EscrowInstruction::unpack(&input),
        Ok(EscrowInstruction::InitEscrow { amount: 0x0102_0304_0506_0708 })
    );
}

#[test]
fn record_layout_is_fixed() {
    let bytes = sample_record().pack();
    assert_eq!(bytes.len(), 105);
    assert_eq!(bytes[0], 1);
    assert!(bytes[1..33].iter().all(|b| *b == 1));
    assert!(bytes[33..65].iter().all(|b| *b == 2));
    assert!(bytes[65..97].iter().all(|b| *b == 3));
    assert_eq!(&bytes[97..105], &[8u8, 7, 6, 5, 4, 3, 2, 1]);
}

#[test]
fn decode_then_encode_round_trip() {
    let mut bytes: Vec<u8> = (0..105u32).map(|i| (i * 7 % 251) as u8).collect();
    bytes[0] = 1;
    let e = Escrow::unpack(&bytes).unwrap();
    assert_eq!(e.pack(), bytes);
    bytes[0] = 0;
    let e = Escrow::unpack_unchecked(&bytes).unwrap();
    assert_eq!(e.pack(), bytes);
}

#[test]
fn encode_then_decode_round_trip() {
    let r = sample_record();
    assert_eq!(Escrow::unpack(&r.pack()), Ok(r));
}

#[test]
fn relaxed_unpack_accepts_zeroed_buffer() {
    let e = Escrow::unpack_unchecked(&[0u8; ESCROW_LEN]).unwrap();
    assert!(!e.is_initialized);
    assert_eq!(e.expected_amount, 0);
    assert_eq!(Escrow::unpack(&[0u8; ESCROW_LEN]), Err(ProgramError::UninitializedAccount));
}

#[test]
fn unpack_rejects_bad_layout() {
    assert_eq!(Escrow::unpack_unchecked(&[0u8; 104]), Err(ProgramError::InvalidAccountData));
    assert_eq!(Escrow::unpack_unchecked(&[0u8; 106]), Err(ProgramError::InvalidAccountData));
    let mut bytes = vec![0u8; ESCROW_LEN];
    bytes[0] = 2;
    assert_eq!(Escrow::unpack_unchecked(&bytes), Err(ProgramError::InvalidAccountData));
    assert_eq!(Escrow::unpack(&bytes), Err(ProgramError::InvalidAccountData));
}

#[test]
fn pack_into_slice_overwrites_buffer() {
    let mut buf = vec![0xeeu8; ESCROW_LEN];
    sample_record().pack_into_slice(&mut buf);
    assert_eq!(buf, sample_record().pack());
}

#[test]
fn keys_compare_bytewise() {
    let a = [4u8; 32];
    let mut b = a;
    assert!(keys_equal(&a, &b));
    b[31] = 5;
    assert!(!keys_equal(&a, &b));
}

#[test]
fn end_to_end_init_escrow() {
    let mut accounts = setup();
    let before = accounts.clone();
    let r = Processor::process(&[9u8; 32], &mut accounts, &init_bytes(1_000_000));
    assert_eq!(r, Ok(()));
    let e = Escrow::unpack(&accounts[3].data).unwrap();
    assert!(e.is_initialized);
    assert_eq!(e.expected_amount, 1_000_000);
    assert_eq!(e.initializer_pubkey, [1u8; 32]);
    assert_eq!(e.temp_token_account_pubkey, [2u8; 32]);
    assert_eq!(e.initializer_account_to_receive_token_pubkey, [3u8; 32]);
    for i in [0usize, 1, 2, 4] {
        assert_eq!(accounts[i], before[i]);
    }
    assert_eq!(accounts[3].lamports, before[3].lamports);
}

#[test]
fn second_init_is_rejected() {
    let mut accounts = setup();
    let input = init_bytes(1_000_000);
    assert_eq!(Processor::process(&[9u8; 32], &mut accounts, &input), Ok(()));
    let after_first = accounts.clone();
    let r = Processor::process(&[9u8; 32], &mut accounts, &input);
    assert_eq!(r, Err(ProgramError::AccountAlreadyInitialized));
    assert_eq!(accounts, after_first);
}

#[test]
fn unsigned_initializer_is_rejected() {
    let mut accounts = setup();
    accounts[0].is_signer = false;
    let before = accounts.clone();
    let r = Processor::process(&[9u8; 32], &mut accounts, &init_bytes(5));
    assert_eq!(r, Err(ProgramError::Custom(1)));
    assert_eq!(accounts, before);
}

#[test]
fn receiving_account_not_owned_by_token_program_is_rejected() {
    let mut accounts = setup();
    accounts[2].owner = [2u8; 32];
    let before = accounts.clone();
    let r = Processor::process(&[9u8; 32], &mut accounts, &init_bytes(5));
    assert_eq!(r, Err(ProgramError::IncorrectProgramId));
    assert_eq!(accounts, before);
}

#[test]
fn record_below_rent_exemption_is_rejected() {
    let mut accounts = setup();
    accounts[3].lamports = RENT_MINIMUM_FOR_RECORD - 1;
    let before = accounts.clone();
    let r = Processor::process(&[9u8; 32], &mut accounts, &init_bytes(5));
    assert_eq!(r, Err(ProgramError::Custom(2)));
    assert_eq!(accounts, before);
}

#[test]
fn already_initialized_record_is_kept() {
    let mut accounts = setup();
    accounts[3].data = sample_record().pack();
    let before = accounts.clone();
    let r = Processor::process(&[9u8; 32], &mut accounts, &init_bytes(5));
    assert_eq!(r, Err(ProgramError::AccountAlreadyInitialized));
    assert_eq!(accounts, before);
}

#[test]
fn malformed_record_is_rejected() {
    let mut accounts = setup();
    let mut rent_ok = vec![0u8; 200];
    rent_ok[0] = 0;
    accounts[3].data = rent_ok;
    accounts[3].lamports = u64::MAX;
    let before = accounts.clone();
    let r = Processor::process(&[9u8; 32], &mut accounts, &init_bytes(5));
    assert_eq!(r, Err(ProgramError::InvalidAccountData));
    assert_eq!(accounts, before);
}

#[test]
fn malformed_instruction_leaves_accounts_unchanged() {
    let mut accounts = setup();
    let before = accounts.clone();
    let r = Processor::process(&[9u8; 32], &mut accounts, &[0u8, 1, 2]);
    assert_eq!(r, Err(ProgramError::Custom(0)));
    assert_eq!(accounts, before);
}

#[test]
fn missing_accounts_are_reported() {
    for n in 0..5usize {
        let mut accounts = setup();
        accounts.truncate(n);
        let r = Processor::process(&[9u8; 32], &mut accounts, &init_bytes(5));
        assert_eq!(r, Err(ProgramError::NotEnoughAccountKeys));
    }
}

#[test]
fn wrong_rent_sysvar_is_rejected() {
    let mut accounts = setup();
    accounts[4].key = [5u8; 32];
    let r = Processor::process(&[9u8; 32], &mut accounts, &init_bytes(5));
    assert_eq!(r, Err(ProgramError::InvalidArgument));
    let mut accounts = setup();
    accounts[4].data.truncate(16);
    let r = Processor::process(&[9u8; 32], &mut accounts, &init_bytes(5));
    assert_eq!(r, Err(ProgramError::InvalidArgument));
}

#[test]
fn rent_rate_overflow_is_reported() {
    let mut accounts = setup();
    accounts[4].data = rent_data(u64::MAX / 100, 2.0);
    let r = Processor::process(&[9u8; 32], &mut accounts, &init_bytes(5));
    assert_eq!(r, Err(ProgramError::ArithmeticOverflow));
}

#[test]
fn rent_threshold_follows_sysvar() {
    let mut accounts = setup();
    accounts[3].lamports = RENT_MINIMUM_FOR_RECORD / 2;
    accounts[4].data = rent_data(3480, 1.0);
    let r = Processor::process(&[9u8; 32], &mut accounts, &init_bytes(5));
    assert_eq!(r, Ok(()));
}
