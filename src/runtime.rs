use vstd::prelude::*;

use solana_program::account_info::AccountInfo;
use solana_program::pubkey::Pubkey;
use solana_program::rent::Rent;
use solana_program::sysvar::Sysvar;

use crate::bytes::u64_from_le;

verus! {

/// One account handed to an instruction: its address, whether it signed,
/// its balance, its data buffer and the program that owns it.
#[derive(Debug, Clone, PartialEq, Eq)]
pub struct Account {
    pub key: [u8; 32],
    pub is_signer: bool,
    pub is_writable: bool,
    pub lamports: u64,
    pub data: Vec<u8>,
    pub owner: [u8; 32],
    pub executable: bool,
    pub rent_epoch: u64,
}

/// Address of the token program, `TokenkegQfeZyiNwAJbNbGKPFXCWuBvf9Ss623VQ5DA`.
pub open spec fn token_program_key() -> Seq<u8> {
    seq![
        6u8, 221, 246, 225, 215, 101, 161, 147, 217, 203, 225, 70, 206, 235, 121, 172,
        28, 180, 133, 237, 95, 91, 55, 145, 58, 140, 245, 133, 126, 255, 0, 169,
    ]
}

/// Address of the rent sysvar, `SysvarRent111111111111111111111111111111111`.
pub open spec fn rent_sysvar_key() -> Seq<u8> {
    seq![
        6u8, 167, 213, 23, 25, 44, 92, 81, 33, 140, 201, 76, 61, 74, 241, 127,
        88, 218, 238, 8, 155, 161, 253, 68, 227, 219, 217, 138, 0, 0, 0, 0,
    ]
}

/// Size of the rent parameters as the sysvar stores them: rate (8 bytes),
/// threshold (8 bytes), burn percentage (1 byte).
pub const RENT_DATA_LEN: usize = 17;

/// Bytes that every account is charged rent for beyond its data.
pub const ACCOUNT_STORAGE_OVERHEAD: u64 = 128;

/// Whether `Rent::is_exempt`, under the rent parameters that `rent_data`
/// holds, finds `lamports` enough for an account of `data_len` bytes.
pub uninterp spec fn rent_exempt_of(rent_data: Seq<u8>, lamports: u64, data_len: usize) -> bool;

/// The rate in lamports per byte-year that rent sysvar data holds.
pub open spec fn rent_rate(rent_data: Seq<u8>) -> u64 {
    u64_from_le(rent_data.subrange(0, 8))
}

/// Whether the rent-exempt minimum for `data_len` bytes overflows 64 bits
/// under the rate that `rent_data` holds.
pub open spec fn rent_overflows(rent_data: Seq<u8>, data_len: nat) -> bool {
    ACCOUNT_STORAGE_OVERHEAD + data_len > u64::MAX || (ACCOUNT_STORAGE_OVERHEAD + data_len)
        * rent_rate(rent_data) > u64::MAX
}

#[verifier::external_type_specification]
#[verifier::external_body]
pub struct ExRent(Rent);

/// The rent parameters read from the rent sysvar account.
pub struct RentSysvar {
    rent: Rent,
    lamports_per_byte_year: u64,
    data: Vec<u8>,
}

impl RentSysvar {
    /// The sysvar data these parameters were read from.
    pub closed spec fn spec_data(&self) -> Seq<u8> {
        self.data@
    }

    /// The rate in lamports per byte-year.
    pub closed spec fn spec_rate(&self) -> u64 {
        self.lamports_per_byte_year
    }

    pub fn lamports_per_byte_year(&self) -> (r: u64)
        ensures
            r == self.spec_rate(),
    {
        self.lamports_per_byte_year
    }
}

/// Relies on spl_token::id: the token program's address.
#[verifier::external_body]
pub(crate) fn token_program_id() -> (r: [u8; 32])
    ensures
        r@ == token_program_key(),
{
    spl_token::id().to_bytes()
}

/// Relies on Sysvar::from_account_info for Rent: it refuses an account whose
/// key is not the rent sysvar's, then reads the data with bincode's default
/// options (fixed-width little-endian fields, trailing bytes allowed).
#[verifier::external_body]
pub(crate) fn rent_from_sysvar(key: &[u8; 32], data: &Vec<u8>) -> (r: Option<RentSysvar>)
    ensures
        r is Some <==> (key@ == rent_sysvar_key() && data@.len() >= RENT_DATA_LEN),
        r matches Some(s) ==> s.spec_data() == data@ && s.spec_rate() == rent_rate(data@),
{
    let key = Pubkey::new_from_array(*key);
    let owner = Pubkey::default();
    let (mut lamports, mut bytes) = (0u64, data.clone());
    let info = AccountInfo::new(&key, false, false, &mut lamports, &mut bytes, &owner, false, 0);
    match Rent::from_account_info(&info) {
        Ok(rent) => Some(
            RentSysvar { lamports_per_byte_year: rent.lamports_per_byte_year, rent, data: data.clone() },
        ),
        Err(_) => None,
    }
}

/// Relies on Rent::is_exempt: whether a balance covers the rent-exempt minimum
/// for a data length. Its arithmetic on the overhead, the length and the rate
/// panics on overflow, which `requires` rules out.
#[verifier::external_body]
pub(crate) fn rent_is_exempt(s: &RentSysvar, lamports: u64, data_len: usize) -> (r: bool)
    requires
        ACCOUNT_STORAGE_OVERHEAD + data_len <= u64::MAX,
        (ACCOUNT_STORAGE_OVERHEAD + data_len) * s.spec_rate() <= u64::MAX,
    ensures
        r == rent_exempt_of(s.spec_data(), lamports, data_len),
{
    s.rent.is_exempt(lamports, data_len)
}

/// Whether two keys are the same address.
pub fn keys_equal(a: &[u8; 32], b: &[u8; 32]) -> (r: bool)
    ensures
        r == (a@ == b@),
{
    let mut i: usize = 0;
    while i < 32
        invariant
            i <= 32,
            a@.len() == 32,
            b@.len() == 32,
            a@.subrange(0, i as int) == b@.subrange(0, i as int),
        decreases 32 - i,
    {
        if a[i] != b[i] {
            assert(a@[i as int] != b@[i as int]);
            return false;
        }
        i = i + 1;
        assert(a@.subrange(0, i as int) =~= b@.subrange(0, i as int));
    }
    assert(a@ =~= a@.subrange(0, 32));
    assert(b@ =~= b@.subrange(0, 32));
    true
}

} // verus!
