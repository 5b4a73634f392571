use std::collections::HashMap;
use vault::driver::{calculate_rent, vault_address};
use vault::error::{DecodeError, ProgramError, VaultError};
use vault::instruction::{close_account, initialize, transfer_owner, Instruction};
use vault::processor::{AccountInfo, Processor};
use vault::pubkey::Pubkey;
use vault::state::{VaultRecord, CURRENT_VERSION, RECORD_LEN};

fn key(b: u8) -> Pubkey {
    Pubkey::new_from_array([b; 32])
}

fn program_id() -> Pubkey {
    key(200)
}

/// A stand-in for the host ledger: balances, storage and owning programs.
struct Ledger {
    accounts: HashMap<[u8; 32], (u64, Vec<u8>, Pubkey)>,
}

impl Ledger {
    fn new() -> Self {
        Ledger { accounts: HashMap::new() }
    }

    fn create(&mut self, k: &Pubkey, lamports: u64, space: usize, owner: &Pubkey) {
        self.accounts
            .insert(k.to_bytes(), (lamports, vec![0; space], *owner));
    }

    fn lamports(&self, k: &Pubkey) -> u64 {
        self.accounts.get(&k.to_bytes()).map(|a| a.0).unwrap_or(0)
    }

    fn data(&self, k: &Pubkey) -> Vec<u8> {
        self.accounts.get(&k.to_bytes()).unwrap().1.clone()
    }

    fn record(&self, k: &Pubkey) -> VaultRecord {
        VaultRecord::try_from_slice(&self.data(k)).unwrap()
    }

    /// Runs one request signed by `signers`; a rejected request changes nothing.
    fn process(&mut self, ix: &Instruction, signers: &[Pubkey]) -> Result<(), ProgramError> {
        let mut infos: Vec<AccountInfo> = ix
            .accounts
            .iter()
            .map(|m| {
                let (lamports, data, owner) = self
                    .accounts
                    .get(&m.pubkey.to_bytes())
                    .cloned()
                    .unwrap_or((0, Vec::new(), key(0)));
                AccountInfo {
                    key: m.pubkey,
                    is_signer: m.is_signer && signers.contains(&m.pubkey),
                    is_writable: m.is_writable,
                    lamports,
                    data,
                    owner,
                }
            })
            .collect();
        Processor::new(ix.program_id).process_instruction(&mut infos, &ix.data)?;
        for info in infos {
            self.accounts
                .insert(info.key.to_bytes(), (info.lamports, info.data, info.owner));
        }
        Ok(())
    }
}

/// Creates the record account, funded for rent, and initializes it.
fn initialize_account(ledger: &mut Ledger, pda: &Pubkey, dart: &Pubkey, owner: &Pubkey) {
    let (space, lamports) = calculate_rent();
    ledger.create(pda, lamports, space as usize, &program_id());
    ledger
        .process(&initialize(&program_id(), pda, dart, owner), &[*dart])
        .unwrap();
}

#[test]
fn initialize_success() {
    let mut ledger = Ledger::new();
    let (pda, dart, owner) = (key(1), key(2), key(3));
    initialize_account(&mut ledger, &pda, &dart, &owner);
    let account_data = ledger.record(&pda);
    assert_eq!(account_data.dart, dart);
    assert_eq!(account_data.owner, owner);
    assert_eq!(account_data.version, VaultRecord::CURRENT_VERSION);
}

#[test]
fn initialize_with_seed_success() {
    let mut ledger = Ledger::new();
    let dart = key(2);
    let seed = "U5f76katXToqua7SJzvP7"; // Could be DART account primary key
    let pda = vault_address(&dart, seed, &program_id()).unwrap();
    let owner = key(3);

    let (space, lamports) = calculate_rent();
    assert_eq!(space as usize, VaultRecord::LEN);
    ledger.create(&pda, lamports, space as usize, &program_id());
    ledger
        .process(&initialize(&program_id(), &pda, &dart, &owner), &[dart])
        .unwrap();
    let account_data = ledger.record(&pda);
    assert_eq!(account_data.dart, dart);
    assert_eq!(account_data.owner, owner);
    assert_eq!(account_data.version, VaultRecord::CURRENT_VERSION);
}

#[test]
fn initialize_twice_fail() {
    let mut ledger = Ledger::new();
    let (pda, dart, owner) = (key(1), key(2), key(3));
    initialize_account(&mut ledger, &pda, &dart, &owner);
    let after_first = ledger.data(&pda);

    let result = ledger.process(&initialize(&program_id(), &pda, &dart, &owner), &[dart]);
    assert_eq!(result, Err(ProgramError::AccountAlreadyInitialized));
    assert_eq!(ledger.data(&pda), after_first);
}

#[test]
fn transfer_owner_success() {
    let mut ledger = Ledger::new();
    let (pda, dart, owner) = (key(1), key(2), key(3));
    initialize_account(&mut ledger, &pda, &dart, &owner);

    let new_owner = key(4);
    ledger
        .process(
            &transfer_owner(&program_id(), &pda, &dart, &owner, &new_owner),
            &[dart],
        )
        .unwrap();

    let record = ledger.record(&pda);
    assert_eq!(record.owner, new_owner);
}

#[test]
fn transfer_owner_fail_wrong_owner() {
    let mut ledger = Ledger::new();
    let (pda, dart, owner) = (key(1), key(2), key(3));
    initialize_account(&mut ledger, &pda, &dart, &owner);

    let new_owner = key(4);
    let wrong_owner = key(5);
    let result = ledger.process(
        &transfer_owner(&program_id(), &pda, &dart, &wrong_owner, &new_owner),
        &[dart],
    );
    assert_eq!(result, Err(ProgramError::IllegalOwner));
}

#[test]
fn close_account_success() {
    let mut ledger = Ledger::new();
    let (pda, dart, owner) = (key(1), key(2), key(3));
    initialize_account(&mut ledger, &pda, &dart, &owner);

    ledger
        .process(&close_account(&program_id(), &pda, &dart, &owner), &[dart])
        .unwrap();

    assert_eq!(ledger.lamports(&owner), calculate_rent().1);
}

#[test]
fn close_account_fail_wrong_owner() {
    let mut ledger = Ledger::new();
    let (pda, dart, owner) = (key(1), key(2), key(3));
    initialize_account(&mut ledger, &pda, &dart, &owner);

    let wrong_owner = key(5);
    let result = ledger.process(
        &close_account(&program_id(), &pda, &dart, &wrong_owner),
        &[dart],
    );
    assert_eq!(result, Err(ProgramError::IllegalOwner));
}

#[test]
fn initialize_rejects_foreign_storage() {
    let mut ledger = Ledger::new();
    let (pda, dart, owner) = (key(1), key(2), key(3));
    ledger.create(&pda, 10, RECORD_LEN, &key(99));
    let result = ledger.process(&initialize(&program_id(), &pda, &dart, &owner), &[dart]);
    assert_eq!(result, Err(ProgramError::IncorrectProgramId));
    // Storage of the wrong length is rejected the same way.
    ledger.create(&pda, 10, 3, &key(99));
    let result = ledger.process(&initialize(&program_id(), &pda, &dart, &owner), &[dart]);
    assert_eq!(result, Err(ProgramError::IncorrectProgramId));
    assert_eq!(ledger.data(&pda), vec![0, 0, 0]);
}

#[test]
fn wrong_owner_then_right_owner_transfer() {
    let mut ledger = Ledger::new();
    let (pda, dart, owner) = (key(1), key(2), key(3));
    initialize_account(&mut ledger, &pda, &dart, &owner);
    let before = ledger.data(&pda);

    let result = ledger.process(
        &transfer_owner(&program_id(), &pda, &dart, &key(5), &key(4)),
        &[dart],
    );
    assert_eq!(result, Err(ProgramError::IllegalOwner));
    assert_eq!(ledger.data(&pda), before);

    ledger
        .process(
            &transfer_owner(&program_id(), &pda, &dart, &owner, &key(4)),
            &[dart],
        )
        .unwrap();
    let record = ledger.record(&pda);
    assert_eq!(record.owner, key(4));
    assert_eq!(record.dart, dart);
    assert_eq!(record.version, CURRENT_VERSION);
}

#[test]
fn close_drains_exactly_once() {
    let mut ledger = Ledger::new();
    let (pda, dart, owner) = (key(1), key(2), key(3));
    initialize_account(&mut ledger, &pda, &dart, &owner);
    ledger.create(&owner, 500, 0, &key(0));
    let record_bytes = ledger.data(&pda);

    let ix = close_account(&program_id(), &pda, &dart, &owner);
    ledger.process(&ix, &[dart]).unwrap();
    assert_eq!(ledger.lamports(&pda), 0);
    assert_eq!(ledger.lamports(&owner), 500 + 1_343_280);
    assert_eq!(ledger.data(&pda), record_bytes);

    ledger.process(&ix, &[dart]).unwrap();
    assert_eq!(ledger.lamports(&pda), 0);
    assert_eq!(ledger.lamports(&owner), 500 + 1_343_280);
}

#[test]
fn close_overflow_moves_nothing() {
    let mut ledger = Ledger::new();
    let (pda, dart, owner) = (key(1), key(2), key(3));
    initialize_account(&mut ledger, &pda, &dart, &owner);
    ledger.create(&owner, u64::MAX, 0, &key(0));
    let result = ledger.process(&close_account(&program_id(), &pda, &dart, &owner), &[dart]);
    assert_eq!(result, Err(ProgramError::Custom(VaultError::Overflow)));
    assert_eq!(ledger.lamports(&pda), 1_343_280);
    assert_eq!(ledger.lamports(&owner), u64::MAX);
}

#[test]
fn unsigned_requests_are_rejected() {
    let mut ledger = Ledger::new();
    let (pda, dart, owner) = (key(1), key(2), key(3));
    let (space, lamports) = calculate_rent();
    ledger.create(&pda, lamports, space as usize, &program_id());
    let result = ledger.process(&initialize(&program_id(), &pda, &dart, &owner), &[]);
    assert_eq!(result, Err(ProgramError::MissingRequiredSignature));

    ledger
        .process(&initialize(&program_id(), &pda, &dart, &owner), &[dart])
        .unwrap();
    let before = ledger.data(&pda);
    let result = ledger.process(
        &transfer_owner(&program_id(), &pda, &dart, &owner, &key(4)),
        &[],
    );
    assert_eq!(result, Err(ProgramError::MissingRequiredSignature));
    let result = ledger.process(&close_account(&program_id(), &pda, &dart, &owner), &[]);
    assert_eq!(result, Err(ProgramError::MissingRequiredSignature));
    assert_eq!(ledger.data(&pda), before);
    assert_eq!(ledger.lamports(&pda), lamports);
}

#[test]
fn wrong_custodian_is_rejected() {
    let mut ledger = Ledger::new();
    let (pda, dart, owner) = (key(1), key(2), key(3));
    initialize_account(&mut ledger, &pda, &dart, &owner);
    let other = key(6);
    let result = ledger.process(
        &transfer_owner(&program_id(), &pda, &other, &owner, &key(4)),
        &[other],
    );
    assert_eq!(result, Err(ProgramError::Custom(VaultError::IncorrectAccountKey)));
    let result = ledger.process(&close_account(&program_id(), &pda, &other, &owner), &[other]);
    assert_eq!(result, Err(ProgramError::Custom(VaultError::IncorrectAccountKey)));
}

#[test]
fn uninitialized_record_is_rejected() {
    let mut ledger = Ledger::new();
    let (pda, dart, owner) = (key(1), key(2), key(3));
    ledger.create(&pda, 10, RECORD_LEN, &program_id());
    let result = ledger.process(
        &transfer_owner(&program_id(), &pda, &dart, &owner, &key(4)),
        &[dart],
    );
    assert_eq!(result, Err(ProgramError::UninitializedAccount));
    let result = ledger.process(&close_account(&program_id(), &pda, &dart, &owner), &[dart]);
    assert_eq!(result, Err(ProgramError::UninitializedAccount));
}

#[test]
fn malformed_storage_is_rejected() {
    let mut ledger = Ledger::new();
    let (pda, dart, owner) = (key(1), key(2), key(3));
    ledger.create(&pda, 10, RECORD_LEN - 1, &program_id());
    let result = ledger.process(&initialize(&program_id(), &pda, &dart, &owner), &[dart]);
    assert_eq!(result, Err(ProgramError::BorshIoError(DecodeError::WrongLength)));

    let mut bad = vec![0u8; RECORD_LEN];
    bad[64] = 7;
    ledger.accounts.insert(pda.to_bytes(), (10, bad, program_id()));
    let result = ledger.process(&initialize(&program_id(), &pda, &dart, &owner), &[dart]);
    assert_eq!(result, Err(ProgramError::BorshIoError(DecodeError::UnknownVersion(7))));
}

#[test]
fn too_few_operands_are_rejected() {
    let mut infos: Vec<AccountInfo> = Vec::new();
    let result = Processor::new(program_id()).process_instruction(&mut infos, &[0]);
    assert_eq!(result, Err(ProgramError::NotEnoughAccountKeys));
    let result = Processor::new(program_id()).process_instruction(&mut infos, &[9]);
    assert_eq!(
        result,
        Err(ProgramError::BorshIoError(DecodeError::UnknownInstruction(9)))
    );
}

#[test]
fn record_round_trip() {
    let record = VaultRecord {
        dart: key(2),
        owner: key(3),
        version: CURRENT_VERSION,
    };
    let bytes = record.try_to_vec();
    assert_eq!(bytes.len(), RECORD_LEN);
    assert_eq!(&bytes[0..32], &[2u8; 32]);
    assert_eq!(&bytes[32..64], &[3u8; 32]);
    assert_eq!(bytes[64], 1);
    let back = VaultRecord::try_from_slice(&bytes).unwrap();
    assert_eq!(back.dart, record.dart);
    assert_eq!(back.owner, record.owner);
    assert_eq!(back.version, record.version);
    // The layout is the borsh layout of (custodian, owner, version).
    assert_eq!(
        borsh::to_vec(&([2u8; 32], [3u8; 32], 1u8)).unwrap(),
        bytes
    );

    let blank = VaultRecord::uninitialized();
    assert!(!blank.is_initialized());
    assert_eq!(blank.try_to_vec(), vec![0u8; RECORD_LEN]);
    assert!(record.is_initialized());
}

#[test]
fn record_of_wrong_length_is_rejected() {
    let long = vec![0u8; RECORD_LEN + 1];
    assert!(matches!(
        VaultRecord::try_from_slice(&long),
        Err(ProgramError::BorshIoError(DecodeError::WrongLength))
    ));
    assert!(matches!(
        VaultRecord::try_from_slice(&[]),
        Err(ProgramError::BorshIoError(DecodeError::WrongLength))
    ));
}
