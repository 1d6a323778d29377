use vstd::prelude::*;

use crate::error::{reported, EscrowError, ProgramError};
use crate::instruction::{spec_unpack, EscrowInstruction};
use crate::runtime::{
    keys_equal, rent_exempt_of, rent_from_sysvar, rent_is_exempt, rent_overflows,
    rent_sysvar_key, token_program_id, token_program_key, Account, ACCOUNT_STORAGE_OVERHEAD,
    RENT_DATA_LEN,
};
use crate::state::{decode, encode, layout_ok, lemma_encode_decode, Escrow, EscrowView, ESCROW_LEN};

verus! {

/// Whether the rent sysvar can be read from this account.
pub open spec fn rent_readable(a: Account) -> bool {
    a.key@ == rent_sysvar_key() && a.data@.len() >= RENT_DATA_LEN
}

/// The outcome of `InitEscrow` on the accounts `accs` (initializer, temporary
/// holding account, receiving account, escrow record, rent sysvar): the
/// record to write, or the first failing check in order.
pub open spec fn spec_init_escrow(accs: Seq<Account>, amount: u64) -> Result<
    EscrowView,
    ProgramError,
> {
    if accs.len() < 1 {
        Err(ProgramError::NotEnoughAccountKeys)
    } else if !accs[0].is_signer {
        Err(reported(EscrowError::MissingRequiredSignature))
    } else if accs.len() < 3 {
        Err(ProgramError::NotEnoughAccountKeys)
    } else if accs[2].owner@ != token_program_key() {
        Err(ProgramError::IncorrectProgramId)
    } else if accs.len() < 5 {
        Err(ProgramError::NotEnoughAccountKeys)
    } else if !rent_readable(accs[4]) {
        Err(ProgramError::InvalidArgument)
    } else if rent_overflows(accs[4].data@, accs[3].data@.len()) {
        Err(ProgramError::ArithmeticOverflow)
    } else if !rent_exempt_of(accs[4].data@, accs[3].lamports, accs[3].data@.len() as usize) {
        Err(reported(EscrowError::NotRentExempt))
    } else if !layout_ok(accs[3].data@) {
        Err(ProgramError::InvalidAccountData)
    } else if accs[3].data@[0] == 1 {
        Err(ProgramError::AccountAlreadyInitialized)
    } else {
        Ok(
            EscrowView {
                is_initialized: true,
                initializer: accs[0].key@,
                temp_token_account: accs[1].key@,
                receive_account: accs[2].key@,
                expected_amount: amount,
            },
        )
    }
}

/// `b` is `a` with its data buffer replaced by `data`.
pub open spec fn with_data(a: Account, b: Account, data: Seq<u8>) -> bool {
    b.key == a.key && b.is_signer == a.is_signer && b.is_writable == a.is_writable && b.lamports
        == a.lamports && b.owner == a.owner && b.executable == a.executable && b.rent_epoch
        == a.rent_epoch && b.data@ == data
}

/// The accounts after `InitEscrow`: unchanged on failure; on success the
/// escrow record account alone holds the encoded new record.
pub open spec fn init_escrow_effect(
    before: Seq<Account>,
    after: Seq<Account>,
    amount: u64,
    r: Result<(), ProgramError>,
) -> bool {
    match spec_init_escrow(before, amount) {
        Err(e) => r == Err::<(), ProgramError>(e) && after == before,
        Ok(rec) => r == Ok::<(), ProgramError>(()) && after.len() == before.len() && (forall|i: int|
            0 <= i < before.len() && i != 3 ==> after[i] == before[i]) && with_data(
            before[3],
            after[3],
            encode(rec),
        ),
    }
}

/// The accounts after processing an instruction buffer.
pub open spec fn process_effect(
    before: Seq<Account>,
    after: Seq<Account>,
    input: Seq<u8>,
    r: Result<(), ProgramError>,
) -> bool {
    match spec_unpack(input) {
        None => r == Err::<(), ProgramError>(reported(EscrowError::InvalidInstruction)) && after
            == before,
        Some(EscrowInstruction::InitEscrow { amount }) => init_escrow_effect(
            before,
            after,
            amount,
            r,
        ),
    }
}

/// Processing `InitEscrow` when the initializer did not sign fails with the
/// missing-signature error and leaves every account unchanged.
pub proof fn lemma_unsigned_initializer_rejected(
    before: Seq<Account>,
    after: Seq<Account>,
    input: Seq<u8>,
    amount: u64,
    r: Result<(), ProgramError>,
)
    requires
        spec_unpack(input) == Some(EscrowInstruction::InitEscrow { amount }),
        before.len() >= 1,
        !before[0].is_signer,
        process_effect(before, after, input, r),
    ensures
        r == Err::<(), ProgramError>(reported(EscrowError::MissingRequiredSignature)),
        after == before,
{
}

/// Processing `InitEscrow` when the receiving account is not owned by the
/// token program fails with the ownership error and leaves every account
/// unchanged (the initializer having signed, as is checked first).
pub proof fn lemma_foreign_receiving_account_rejected(
    before: Seq<Account>,
    after: Seq<Account>,
    input: Seq<u8>,
    amount: u64,
    r: Result<(), ProgramError>,
)
    requires
        spec_unpack(input) == Some(EscrowInstruction::InitEscrow { amount }),
        before.len() >= 3,
        before[0].is_signer,
        before[2].owner@ != token_program_key(),
        process_effect(before, after, input, r),
    ensures
        r == Err::<(), ProgramError>(ProgramError::IncorrectProgramId),
        after == before,
{
}

/// Processing `InitEscrow` against a record account below the rent-exempt
/// minimum fails with the rent error and leaves every account unchanged (the
/// earlier checks having passed).
pub proof fn lemma_rent_paying_record_rejected(
    before: Seq<Account>,
    after: Seq<Account>,
    input: Seq<u8>,
    amount: u64,
    r: Result<(), ProgramError>,
)
    requires
        spec_unpack(input) == Some(EscrowInstruction::InitEscrow { amount }),
        before.len() >= 5,
        before[0].is_signer,
        before[2].owner@ == token_program_key(),
        rent_readable(before[4]),
        !rent_overflows(before[4].data@, before[3].data@.len()),
        !rent_exempt_of(before[4].data@, before[3].lamports, before[3].data@.len() as usize),
        process_effect(before, after, input, r),
    ensures
        r == Err::<(), ProgramError>(reported(EscrowError::NotRentExempt)),
        after == before,
{
}

/// Processing `InitEscrow` against a record that is already initialised fails
/// with the re-initialisation error and leaves every account unchanged (the
/// earlier checks having passed).
pub proof fn lemma_initialized_record_kept(
    before: Seq<Account>,
    after: Seq<Account>,
    input: Seq<u8>,
    amount: u64,
    r: Result<(), ProgramError>,
)
    requires
        spec_unpack(input) == Some(EscrowInstruction::InitEscrow { amount }),
        before.len() >= 5,
        before[0].is_signer,
        before[2].owner@ == token_program_key(),
        rent_readable(before[4]),
        !rent_overflows(before[4].data@, before[3].data@.len()),
        rent_exempt_of(before[4].data@, before[3].lamports, before[3].data@.len() as usize),
        layout_ok(before[3].data@),
        decode(before[3].data@).is_initialized,
        process_effect(before, after, input, r),
    ensures
        r == Err::<(), ProgramError>(ProgramError::AccountAlreadyInitialized),
        after == before,
{
}

/// After a successful `InitEscrow`, the record account decodes, strictly, to
/// an initialised record holding the three accounts' keys and the amount.
pub proof fn lemma_success_records_terms(
    before: Seq<Account>,
    after: Seq<Account>,
    input: Seq<u8>,
    amount: u64,
)
    requires
        spec_unpack(input) == Some(EscrowInstruction::InitEscrow { amount }),
        process_effect(before, after, input, Ok(())),
    ensures
        before.len() >= 5,
        layout_ok(after[3].data@),
        after[3].data@[0] == 1,
        decode(after[3].data@) == (EscrowView {
            is_initialized: true,
            initializer: before[0].key@,
            temp_token_account: before[1].key@,
            receive_account: before[2].key@,
            expected_amount: amount,
        }),
{
    let rec = EscrowView {
        is_initialized: true,
        initializer: before[0].key@,
        temp_token_account: before[1].key@,
        receive_account: before[2].key@,
        expected_amount: amount,
    };
    lemma_encode_decode(rec);
}

/// Running the same instruction again on the accounts that a successful
/// `InitEscrow` left fails with the re-initialisation error.
pub proof fn lemma_second_init_rejected(
    before: Seq<Account>,
    middle: Seq<Account>,
    after: Seq<Account>,
    input: Seq<u8>,
    amount: u64,
    r: Result<(), ProgramError>,
)
    requires
        spec_unpack(input) == Some(EscrowInstruction::InitEscrow { amount }),
        process_effect(before, middle, input, Ok(())),
        process_effect(middle, after, input, r),
    ensures
        r == Err::<(), ProgramError>(ProgramError::AccountAlreadyInitialized),
        after == middle,
{
    lemma_success_records_terms(before, middle, input, amount);
    assert(middle[0] == before[0]);
    assert(middle[2] == before[2]);
    assert(middle[4] == before[4]);
    assert(middle[3].data@.len() == ESCROW_LEN);
}

/// The escrow program's instruction processor.
#[allow(non_camel_case_types)]
pub struct processor;

pub type Processor = processor;

impl processor {
    /// Decodes `instruction_data` and runs the instruction it names on `accounts`.
    pub fn process(program_id: &[u8; 32], accounts: &mut Vec<Account>, instruction_data: &[u8]) -> (r:
        Result<(), ProgramError>)
        ensures
            process_effect(old(accounts)@, final(accounts)@, instruction_data@, r),
    {
        let instruction = EscrowInstruction::unpack(instruction_data)?;
        match instruction {
            EscrowInstruction::InitEscrow { amount } => processor::process_init_escrow(
                accounts,
                amount,
                program_id,
            ),
        }
    }

    /// Checks the accounts of `InitEscrow` in order and, when all pass, writes
    /// the new record into the escrow record account.
    pub fn process_init_escrow(accounts: &mut Vec<Account>, amount: u64, _program_id: &[u8; 32]) -> (r:
        Result<(), ProgramError>)
        ensures
            init_escrow_effect(old(accounts)@, final(accounts)@, amount, r),
    {
        if accounts.len() < 1 {
            return Err(ProgramError::NotEnoughAccountKeys);
        }
        if !accounts[0].is_signer {
            return Err(ProgramError::from(EscrowError::MissingRequiredSignature));
        }
        if accounts.len() < 3 {
            return Err(ProgramError::NotEnoughAccountKeys);
        }
        let token_id = token_program_id();
        if !keys_equal(&accounts[2].owner, &token_id) {
            return Err(ProgramError::IncorrectProgramId);
        }
        if accounts.len() < 5 {
            return Err(ProgramError::NotEnoughAccountKeys);
        }
        let rent = match rent_from_sysvar(&accounts[4].key, &accounts[4].data) {
            Some(rent) => rent,
            None => return Err(ProgramError::InvalidArgument),
        };
        let data_len = accounts[3].data.len();
        let rate = rent.lamports_per_byte_year();
        let total: u128 = data_len as u128 + ACCOUNT_STORAGE_OVERHEAD as u128;
        if total > u64::MAX as u128 {
            return Err(ProgramError::ArithmeticOverflow);
        }
        assert(total * rate <= 0xffff_ffff_ffff_ffffu128 * 0xffff_ffff_ffff_ffffu128) by (nonlinear_arith)
            requires
                total <= 0xffff_ffff_ffff_ffffu128,
                rate <= 0xffff_ffff_ffff_ffffu64,
        ;
        if total * (rate as u128) > u64::MAX as u128 {
            return Err(ProgramError::ArithmeticOverflow);
        }
        if !rent_is_exempt(&rent, accounts[3].lamports, data_len) {
            return Err(ProgramError::from(EscrowError::NotRentExempt));
        }
        let existing = Escrow::unpack_unchecked(accounts[3].data.as_slice())?;
        if existing.is_initialized {
            return Err(ProgramError::AccountAlreadyInitialized);
        }
        let record = Escrow {
            is_initialized: true,
            initializer_pubkey: accounts[0].key,
            temp_token_account_pubkey: accounts[1].key,
            initializer_account_to_receive_token_pubkey: accounts[2].key,
            expected_amount: amount,
        };
        let target = &accounts[3];
        let updated = Account {
            key: target.key,
            is_signer: target.is_signer,
            is_writable: target.is_writable,
            lamports: target.lamports,
            data: record.pack(),
            owner: target.owner,
            executable: target.executable,
            rent_epoch: target.rent_epoch,
        };
        accounts.set(3, updated);
        Ok(())
    }
}

} // verus!
