use crate::error::{DecodeError, ProgramError};
use crate::pubkey::Pubkey;
use vstd::prelude::*;

verus! {

/// The operations the vault program accepts.
#[derive(Clone, Copy, Debug, PartialEq, Eq, Structural)]
pub enum VaultInstruction {
    /// Initialize a vault record (by the custodian on behalf of a given owner).
    ///
    /// Accounts expected by this instruction:
    ///
    /// 0. `[writable]` The vault record account (must be uninitialized).
    /// 1. `[signer]` The custodian.
    /// 2. `[]` The record owner.
    Initialize,
    /// Transfer ownership of a vault record.
    ///
    /// Accounts expected by this instruction:
    ///
    /// 0. `[writable]` The vault record account (must be initialized).
    /// 1. `[signer]` The custodian.
    /// 2. `[]` The current record owner.
    /// 3. `[]` The new record owner.
    TransferOwner,
    /// Close a vault record account, draining its balance to the owner.
    ///
    /// Accounts expected by this instruction:
    ///
    /// 0. `[writable]` The vault record account (must be initialized).
    /// 1. `[signer]` The custodian.
    /// 2. `[writable]` The record owner, who receives the balance.
    CloseAccount,
}

/// The discriminant byte of an operation.
pub open spec fn instruction_tag(op: VaultInstruction) -> u8 {
    match op {
        VaultInstruction::Initialize => 0,
        VaultInstruction::TransferOwner => 1,
        VaultInstruction::CloseAccount => 2,
    }
}

/// The wire encoding of an operation: its discriminant byte alone.
pub open spec fn instruction_bytes(op: VaultInstruction) -> Seq<u8> {
    seq![instruction_tag(op)]
}

/// What a byte buffer decodes to as an operation.
pub open spec fn decode_instruction(b: Seq<u8>) -> Result<VaultInstruction, DecodeError> {
    if b.len() == 0 {
        Err(DecodeError::WrongLength)
    } else if b[0] > 2 {
        Err(DecodeError::UnknownInstruction(b[0]))
    } else if b.len() != 1 {
        Err(DecodeError::WrongLength)
    } else if b[0] == 0 {
        Ok(VaultInstruction::Initialize)
    } else if b[0] == 1 {
        Ok(VaultInstruction::TransferOwner)
    } else {
        Ok(VaultInstruction::CloseAccount)
    }
}

/// `decode_instruction` with its error lifted to a program error.
pub open spec fn unpack_instruction(b: Seq<u8>) -> Result<VaultInstruction, ProgramError> {
    match decode_instruction(b) {
        Ok(op) => Ok(op),
        Err(e) => Err(ProgramError::BorshIoError(e)),
    }
}

impl VaultInstruction {
    /// Encodes the operation as its discriminant byte.
    pub fn try_to_vec(&self) -> (v: Vec<u8>)
        ensures
            v@ == instruction_bytes(*self),
    {
        let tag: u8 = match self {
            VaultInstruction::Initialize => 0,
            VaultInstruction::TransferOwner => 1,
            VaultInstruction::CloseAccount => 2,
        };
        let mut v: Vec<u8> = Vec::new();
        v.push(tag);
        assert(v@ =~= instruction_bytes(*self));
        v
    }

    /// Decodes an operation: one known discriminant byte and nothing after it.
    pub fn try_from_slice(input: &[u8]) -> (r: Result<VaultInstruction, ProgramError>)
        ensures
            r == unpack_instruction(input@),
    {
        if input.len() == 0 {
            return Err(ProgramError::BorshIoError(DecodeError::WrongLength));
        }
        let tag = input[0];
        if tag > 2 {
            return Err(ProgramError::BorshIoError(DecodeError::UnknownInstruction(tag)));
        }
        if input.len() != 1 {
            return Err(ProgramError::BorshIoError(DecodeError::WrongLength));
        }
        if tag == 0 {
            Ok(VaultInstruction::Initialize)
        } else if tag == 1 {
            Ok(VaultInstruction::TransferOwner)
        } else {
            Ok(VaultInstruction::CloseAccount)
        }
    }
}

/// Decoding the encoding of an operation gives the operation back.
pub proof fn lemma_instruction_round_trip(op: VaultInstruction)
    ensures
        decode_instruction(instruction_bytes(op)) == Ok::<VaultInstruction, DecodeError>(op),
{
}

/// A buffer whose leading byte selects no operation never decodes.
pub proof fn lemma_unknown_tag_rejected(b: Seq<u8>)
    requires
        b.len() > 0,
        b[0] > 2,
    ensures
        decode_instruction(b) == Err::<VaultInstruction, DecodeError>(
            DecodeError::UnknownInstruction(b[0]),
        ),
{
}

/// An account reference of a request.
#[derive(Clone, Copy, Debug, PartialEq, Eq)]
pub struct AccountMeta {
    pub pubkey: Pubkey,
    pub is_signer: bool,
    pub is_writable: bool,
}

impl AccountMeta {
    /// A writable reference.
    pub fn new(pubkey: Pubkey, is_signer: bool) -> (r: AccountMeta)
        ensures
            r == (AccountMeta { pubkey, is_signer, is_writable: true }),
    {
        AccountMeta { pubkey, is_signer, is_writable: true }
    }

    /// A read-only reference.
    pub fn new_readonly(pubkey: Pubkey, is_signer: bool) -> (r: AccountMeta)
        ensures
            r == (AccountMeta { pubkey, is_signer, is_writable: false }),
    {
        AccountMeta { pubkey, is_signer, is_writable: false }
    }
}

/// A request to the vault program: the program, the operand references in
/// order, and the encoded operation.
#[derive(Debug, PartialEq, Eq)]
pub struct Instruction {
    pub program_id: Pubkey,
    pub accounts: Vec<AccountMeta>,
    pub data: Vec<u8>,
}

/// A writable, non-signing reference.
pub open spec fn writable(k: Pubkey) -> AccountMeta {
    AccountMeta { pubkey: k, is_signer: false, is_writable: true }
}

/// A read-only reference, signing or not.
pub open spec fn readonly(k: Pubkey, is_signer: bool) -> AccountMeta {
    AccountMeta { pubkey: k, is_signer, is_writable: false }
}

/// Creates a `VaultInstruction::Initialize` request.
pub fn initialize(program_id: &Pubkey, pda: &Pubkey, dart: &Pubkey, owner: &Pubkey) -> (r:
    Instruction)
    ensures
        r.program_id == *program_id,
        r.data@ == instruction_bytes(VaultInstruction::Initialize),
        r.accounts@ == seq![writable(*pda), readonly(*dart, true), readonly(*owner, false)],
{
    let mut accounts: Vec<AccountMeta> = Vec::new();
    accounts.push(AccountMeta::new(*pda, false));
    accounts.push(AccountMeta::new_readonly(*dart, true));
    accounts.push(AccountMeta::new_readonly(*owner, false));
    assert(accounts@ =~= seq![writable(*pda), readonly(*dart, true), readonly(*owner, false)]);
    Instruction {
        program_id: *program_id,
        accounts,
        data: VaultInstruction::Initialize.try_to_vec(),
    }
}

/// Creates a `VaultInstruction::TransferOwner` request.
pub fn transfer_owner(
    program_id: &Pubkey,
    pda: &Pubkey,
    dart: &Pubkey,
    owner: &Pubkey,
    new_owner: &Pubkey,
) -> (r: Instruction)
    ensures
        r.program_id == *program_id,
        r.data@ == instruction_bytes(VaultInstruction::TransferOwner),
        r.accounts@ == seq![
            writable(*pda),
            readonly(*dart, true),
            readonly(*owner, false),
            readonly(*new_owner, false),
        ],
{
    let mut accounts: Vec<AccountMeta> = Vec::new();
    accounts.push(AccountMeta::new(*pda, false));
    accounts.push(AccountMeta::new_readonly(*dart, true));
    accounts.push(AccountMeta::new_readonly(*owner, false));
    accounts.push(AccountMeta::new_readonly(*new_owner, false));
    assert(accounts@ =~= seq![
        writable(*pda),
        readonly(*dart, true),
        readonly(*owner, false),
        readonly(*new_owner, false),
    ]);
    Instruction {
        program_id: *program_id,
        accounts,
        data: VaultInstruction::TransferOwner.try_to_vec(),
    }
}

/// Creates a `VaultInstruction::CloseAccount` request.
pub fn close_account(program_id: &Pubkey, pda: &Pubkey, dart: &Pubkey, owner: &Pubkey) -> (r:
    Instruction)
    ensures
        r.program_id == *program_id,
        r.data@ == instruction_bytes(VaultInstruction::CloseAccount),
        r.accounts@ == seq![writable(*pda), readonly(*dart, true), writable(*owner)],
{
    let mut accounts: Vec<AccountMeta> = Vec::new();
    accounts.push(AccountMeta::new(*pda, false));
    accounts.push(AccountMeta::new_readonly(*dart, true));
    accounts.push(AccountMeta::new(*owner, false));
    assert(accounts@ =~= seq![writable(*pda), readonly(*dart, true), writable(*owner)]);
    Instruction {
        program_id: *program_id,
        accounts,
        data: VaultInstruction::CloseAccount.try_to_vec(),
    }
}

} // verus!
