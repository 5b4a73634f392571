use vstd::prelude::*;

verus! {

/// Why a byte buffer could not be read as a record or as an operation.
#[derive(Clone, Copy, Debug, PartialEq, Eq, Structural)]
pub enum DecodeError {
    /// The buffer is not exactly as long as the layout it is read as.
    WrongLength,
    /// The leading byte selects no operation.
    UnknownInstruction(u8),
    /// The version tag is neither the blank tag nor the supported version.
    UnknownVersion(u8),
}

/// Errors of the vault program's own.
#[derive(Clone, Copy, Debug, PartialEq, Eq, Structural)]
pub enum VaultError {
    /// The custodian reference does not match the custodian on the record.
    IncorrectAccountKey,
    /// Crediting the drained balance would overflow the owner's balance.
    Overflow,
}

/// Every way an operation can be rejected.
#[derive(Clone, Copy, Debug, PartialEq, Eq, Structural)]
pub enum ProgramError {
    /// An error of the vault program's own.
    Custom(VaultError),
    /// The record's storage is not owned by this program.
    IncorrectProgramId,
    /// The custodian did not sign the request.
    MissingRequiredSignature,
    /// Initialize on a record that is already initialized.
    AccountAlreadyInitialized,
    /// TransferOwner or CloseAccount on a record that is not initialized.
    UninitializedAccount,
    /// The owner reference does not match the owner on the record.
    IllegalOwner,
    /// Fewer account references than the operation needs.
    NotEnoughAccountKeys,
    /// The operation bytes or the record bytes are malformed.
    BorshIoError(DecodeError),
}

impl From<VaultError> for ProgramError {
    fn from(e: VaultError) -> (r: ProgramError)
        ensures
            r == ProgramError::Custom(e),
    {
        ProgramError::Custom(e)
    }
}

impl vstd::std_specs::convert::FromSpecImpl<VaultError> for ProgramError {
    open spec fn obeys_from_spec() -> bool {
        true
    }

    open spec fn from_spec(e: VaultError) -> ProgramError {
        ProgramError::Custom(e)
    }
}

} // verus!
