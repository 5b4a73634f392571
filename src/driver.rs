use crate::pubkey::{key_from_bytes, Pubkey};
use crate::state::RECORD_LEN;
use vstd::prelude::*;
use vstd::string::{StringExecFns, StringSliceAdditionalSpecFns};

verus! {

/// Errors of the ledger driver that submits requests for the service.
#[derive(Debug)]
pub enum Error {
    GetVaultAccountError(String),
    PubkeyWithSeedError(String),
    GetLatestBlockhashError(String),
    CreateVaultError(String),
    CloseVaultError(String),
    ChangeVaultOwnerError(String),
    HealthCheckError(String),
}

/// The text of a driver error: what failed, then the cause.
pub open spec fn error_text(e: &Error) -> Seq<char> {
    match e {
        Error::GetVaultAccountError(s) => "error getting vault account: "@ + s@,
        Error::PubkeyWithSeedError(s) => "error creating public key from seed: "@ + s@,
        Error::GetLatestBlockhashError(s) => "error getting latest blockhash: "@ + s@,
        Error::CreateVaultError(s) => "error creating vault: "@ + s@,
        Error::CloseVaultError(s) => "error closing vault: "@ + s@,
        Error::ChangeVaultOwnerError(s) => "error changing vault owner: "@ + s@,
        Error::HealthCheckError(s) => "error checking solana rpc health: "@ + s@,
    }
}

impl Error {
    /// The text of the error: what failed, then the cause.
    pub fn to_string(&self) -> (r: String)
        ensures
            r@ == error_text(self),
    {
        let (what, cause) = match self {
            Error::GetVaultAccountError(s) => ("error getting vault account: ", s),
            Error::PubkeyWithSeedError(s) => ("error creating public key from seed: ", s),
            Error::GetLatestBlockhashError(s) => ("error getting latest blockhash: ", s),
            Error::CreateVaultError(s) => ("error creating vault: ", s),
            Error::CloseVaultError(s) => ("error closing vault: ", s),
            Error::ChangeVaultOwnerError(s) => ("error changing vault owner: ", s),
            Error::HealthCheckError(s) => ("error checking solana rpc health: ", s),
        };
        let mut text = what.to_owned();
        text.append(cause.as_str());
        text
    }
}

/// Lamports the default rent schedule charges per byte and year.
pub const LAMPORTS_PER_BYTE_YEAR: u64 = 3480;

/// Bytes every account is charged for besides its storage.
pub const ACCOUNT_STORAGE_OVERHEAD: u64 = 128;

/// Years of rent a balance must cover for the account to be exempt.
pub const EXEMPTION_YEARS: u64 = 2;

/// Largest storage the ledger lets an account have.
pub const MAX_PERMITTED_DATA_LENGTH: usize = 10485760;

/// The balance that keeps an account with `data_len` bytes of storage alive
/// under the default rent schedule.
pub open spec fn rent_exempt_minimum(data_len: nat) -> nat {
    ((ACCOUNT_STORAGE_OVERHEAD + data_len) * LAMPORTS_PER_BYTE_YEAR * EXEMPTION_YEARS) as nat
}

/// Relies on solana_program's `Rent::default().minimum_balance`: storage
/// overhead plus length, times the default per-byte rate, times the two-year
/// exemption threshold. Below the ledger's storage limit every step is exact.
#[verifier::external_body]
fn minimum_balance(data_len: usize) -> (r: u64)
    requires
        data_len <= MAX_PERMITTED_DATA_LENGTH,
    ensures
        r == rent_exempt_minimum(data_len as nat),
{
    solana_program::rent::Rent::default().minimum_balance(data_len)
}

/// Storage size and funding for a new vault record account.
pub fn calculate_rent() -> (r: (u64, u64))
    ensures
        r.0 == RECORD_LEN,
        r.1 == rent_exempt_minimum(RECORD_LEN as nat),
{
    let space = RECORD_LEN;
    let lamports = minimum_balance(space);
    (space as u64, lamports)
}

/// Longest seed an address may be derived from, in bytes.
pub const MAX_SEED_LEN: usize = 32;

/// The address `Pubkey::create_with_seed` derives: a SHA-256 digest of the
/// base, the seed and the owner.
pub uninterp spec fn seeded_address(base: Seq<u8>, seed: Seq<u8>, owner: Seq<u8>) -> Seq<u8>;

/// The bytes that mark a program-derived address.
pub open spec fn pda_marker() -> Seq<u8> {
    seq![
        80u8, 114, 111, 103, 114, 97, 109, 68, 101, 114, 105, 118, 101, 100, 65, 100, 100, 114,
        101, 115, 115,
    ]
}

/// Why no address can be derived from a seed.
#[derive(Clone, Copy, Debug, PartialEq, Eq, Structural)]
pub enum PubkeyError {
    MaxSeedLengthExceeded,
    InvalidSeeds,
    IllegalOwner,
}

/// What deriving an address gives, from the seed's length in bytes, the
/// owner, and the digest.
pub open spec fn seed_outcome(seed_len: nat, owner: Seq<u8>, digest: Seq<u8>) -> Result<
    Pubkey,
    PubkeyError,
> {
    if seed_len > MAX_SEED_LEN {
        Err(PubkeyError::MaxSeedLengthExceeded)
    } else if owner.subrange(11, 32) == pda_marker() {
        Err(PubkeyError::IllegalOwner)
    } else {
        Ok(key_from_bytes(digest))
    }
}

/// Relies on solana_program's `Pubkey::create_with_seed`: a seed over 32
/// bytes, or an owner that ends in the program-derived-address marker, is
/// refused; otherwise the address is the digest of base, seed and owner.
#[verifier::external_body]
fn create_with_seed(base: &Pubkey, seed: &str, owner: &Pubkey) -> (r: Result<Pubkey, PubkeyError>)
    ensures
        r == seed_outcome(
            seed.spec_bytes().len(),
            owner@,
            seeded_address(base@, seed.spec_bytes(), owner@),
        ),
{
    let base = solana_program::pubkey::Pubkey::new_from_array(base.bytes);
    let owner = solana_program::pubkey::Pubkey::new_from_array(owner.bytes);
    match solana_program::pubkey::Pubkey::create_with_seed(&base, seed, &owner) {
        Ok(k) => Ok(Pubkey { bytes: k.to_bytes() }),
        Err(solana_program::pubkey::PubkeyError::MaxSeedLengthExceeded) => Err(
            PubkeyError::MaxSeedLengthExceeded,
        ),
        Err(solana_program::pubkey::PubkeyError::InvalidSeeds) => Err(PubkeyError::InvalidSeeds),
        Err(solana_program::pubkey::PubkeyError::IllegalOwner) => Err(PubkeyError::IllegalOwner),
    }
}

/// The text of an address-derivation error.
pub open spec fn pubkey_error_text(e: PubkeyError) -> Seq<char> {
    match e {
        PubkeyError::MaxSeedLengthExceeded => "Length of the seed is too long for address generation"@,
        PubkeyError::InvalidSeeds => "Provided seeds do not result in a valid address"@,
        PubkeyError::IllegalOwner => "Provided owner is not allowed"@,
    }
}

impl PubkeyError {
    /// The text of the error.
    pub fn to_string(&self) -> (r: String)
        ensures
            r@ == pubkey_error_text(*self),
    {
        match self {
            PubkeyError::MaxSeedLengthExceeded => "Length of the seed is too long for address generation".to_owned(),
            PubkeyError::InvalidSeeds => "Provided seeds do not result in a valid address".to_owned(),
            PubkeyError::IllegalOwner => "Provided owner is not allowed".to_owned(),
        }
    }
}

/// The address of the vault that the custodian `dart` keeps under `seed`
/// for the program `program_id`.
pub fn vault_address(dart: &Pubkey, seed: &str, program_id: &Pubkey) -> (r: Result<Pubkey, Error>)
    ensures
        match seed_outcome(
            seed.spec_bytes().len(),
            program_id@,
            seeded_address(dart@, seed.spec_bytes(), program_id@),
        ) {
            Ok(k) => r == Ok::<Pubkey, Error>(k),
            Err(e) => r matches Err(Error::PubkeyWithSeedError(m)) && m@ == pubkey_error_text(e),
        },
{
    match create_with_seed(dart, seed, program_id) {
        Ok(k) => Ok(k),
        Err(e) => Err(Error::PubkeyWithSeedError(e.to_string())),
    }
}

} // verus!
