use crate::error::{ProgramError, VaultError};
use crate::instruction::{
    instruction_bytes, lemma_instruction_round_trip, unpack_instruction, VaultInstruction,
};
use crate::pubkey::Pubkey;
use crate::state::{decode_record, lemma_record_round_trip, record_bytes, VaultRecord, CURRENT_VERSION};
use vstd::prelude::*;

verus! {

/// An account as the program sees it while one request is processed.
#[derive(Debug)]
pub struct AccountInfo {
    /// The account's identity.
    pub key: Pubkey,
    /// Whether the account signed the request.
    pub is_signer: bool,
    /// Whether the request may change the account.
    pub is_writable: bool,
    /// The account's balance.
    pub lamports: u64,
    /// The account's storage.
    pub data: Vec<u8>,
    /// The program that owns the account.
    pub owner: Pubkey,
}

/// An account, with its storage seen as a sequence of bytes.
pub struct AccountView {
    pub key: Pubkey,
    pub is_signer: bool,
    pub is_writable: bool,
    pub lamports: u64,
    pub data: Seq<u8>,
    pub owner: Pubkey,
}

impl View for AccountInfo {
    type V = AccountView;

    open spec fn view(&self) -> AccountView {
        AccountView {
            key: self.key,
            is_signer: self.is_signer,
            is_writable: self.is_writable,
            lamports: self.lamports,
            data: self.data@,
            owner: self.owner,
        }
    }
}

/// The accounts of a request, each seen through its view.
pub open spec fn view_accounts(a: Seq<AccountInfo>) -> Seq<AccountView> {
    Seq::new(a.len(), |i: int| a[i]@)
}

/// `v` with its storage replaced by `data`.
pub open spec fn with_data(v: AccountView, data: Seq<u8>) -> AccountView {
    AccountView { data, ..v }
}

/// `v` with its balance replaced by `lamports`.
pub open spec fn with_lamports(v: AccountView, lamports: u64) -> AccountView {
    AccountView { lamports, ..v }
}

/// The outcome of Initialize on the accounts `a`, for the program `pid`.
pub open spec fn initialize_spec(pid: Pubkey, a: Seq<AccountView>) -> Result<
    Seq<AccountView>,
    ProgramError,
> {
    if a.len() < 3 {
        Err(ProgramError::NotEnoughAccountKeys)
    } else if a[0].owner != pid {
        Err(ProgramError::IncorrectProgramId)
    } else if !a[1].is_signer {
        Err(ProgramError::MissingRequiredSignature)
    } else {
        match decode_record(a[0].data) {
            Err(e) => Err(ProgramError::BorshIoError(e)),
            Ok(rec) => if rec.spec_is_initialized() {
                Err(ProgramError::AccountAlreadyInitialized)
            } else {
                let new_rec = VaultRecord { dart: a[1].key, owner: a[2].key, version: CURRENT_VERSION };
                Ok(a.update(0, with_data(a[0], record_bytes(new_rec))))
            },
        }
    }
}

/// The outcome of TransferOwner on the accounts `a`, for the program `pid`.
pub open spec fn transfer_owner_spec(pid: Pubkey, a: Seq<AccountView>) -> Result<
    Seq<AccountView>,
    ProgramError,
> {
    if a.len() < 4 {
        Err(ProgramError::NotEnoughAccountKeys)
    } else if a[0].owner != pid {
        Err(ProgramError::IncorrectProgramId)
    } else {
        match decode_record(a[0].data) {
            Err(e) => Err(ProgramError::BorshIoError(e)),
            Ok(rec) => if !rec.spec_is_initialized() {
                Err(ProgramError::UninitializedAccount)
            } else if rec.owner != a[2].key {
                Err(ProgramError::IllegalOwner)
            } else if a[1].key != rec.dart {
                Err(ProgramError::Custom(VaultError::IncorrectAccountKey))
            } else if !a[1].is_signer {
                Err(ProgramError::MissingRequiredSignature)
            } else {
                let new_rec = VaultRecord { owner: a[3].key, ..rec };
                Ok(a.update(0, with_data(a[0], record_bytes(new_rec))))
            },
        }
    }
}

/// The outcome of CloseAccount on the accounts `a`, for the program `pid`.
pub open spec fn close_account_spec(pid: Pubkey, a: Seq<AccountView>) -> Result<
    Seq<AccountView>,
    ProgramError,
> {
    if a.len() < 3 {
        Err(ProgramError::NotEnoughAccountKeys)
    } else if a[0].owner != pid {
        Err(ProgramError::IncorrectProgramId)
    } else {
        match decode_record(a[0].data) {
            Err(e) => Err(ProgramError::BorshIoError(e)),
            Ok(rec) => if !rec.spec_is_initialized() {
                Err(ProgramError::UninitializedAccount)
            } else if a[1].key != rec.dart {
                Err(ProgramError::Custom(VaultError::IncorrectAccountKey))
            } else if !a[1].is_signer {
                Err(ProgramError::MissingRequiredSignature)
            } else if rec.owner != a[2].key {
                Err(ProgramError::IllegalOwner)
            } else if a[2].lamports + a[0].lamports > u64::MAX {
                Err(ProgramError::Custom(VaultError::Overflow))
            } else {
                let drained = (a[2].lamports + a[0].lamports) as u64;
                Ok(
                    a.update(0, with_lamports(a[0], 0)).update(
                        2,
                        with_lamports(a[2], drained),
                    ),
                )
            },
        }
    }
}

/// The outcome of the operation `op` on the accounts `a`.
pub open spec fn operation_spec(pid: Pubkey, op: VaultInstruction, a: Seq<AccountView>) -> Result<
    Seq<AccountView>,
    ProgramError,
> {
    match op {
        VaultInstruction::Initialize => initialize_spec(pid, a),
        VaultInstruction::TransferOwner => transfer_owner_spec(pid, a),
        VaultInstruction::CloseAccount => close_account_spec(pid, a),
    }
}

/// The outcome of a request with operation bytes `input` on the accounts `a`:
/// the accounts afterwards, or why the request was rejected.
pub open spec fn process_spec(pid: Pubkey, input: Seq<u8>, a: Seq<AccountView>) -> Result<
    Seq<AccountView>,
    ProgramError,
> {
    match unpack_instruction(input) {
        Err(e) => Err(e),
        Ok(op) => operation_spec(pid, op, a),
    }
}

/// The accounts after an outcome: a rejected request changes nothing.
pub open spec fn accounts_after(
    outcome: Result<Seq<AccountView>, ProgramError>,
    a: Seq<AccountView>,
) -> Seq<AccountView> {
    match outcome {
        Ok(n) => n,
        Err(_) => a,
    }
}

/// What the caller is told of an outcome.
pub open spec fn reply_of(outcome: Result<Seq<AccountView>, ProgramError>) -> Result<
    (),
    ProgramError,
> {
    match outcome {
        Ok(_) => Ok(()),
        Err(e) => Err(e),
    }
}

/// Checks that `account` is `key` and signed the request.
fn validate_signer(account: &AccountInfo, key: &Pubkey) -> (r: Result<(), ProgramError>)
    ensures
        r == (if account.key != *key {
            Err(ProgramError::Custom(VaultError::IncorrectAccountKey))
        } else if !account.is_signer {
            Err(ProgramError::MissingRequiredSignature)
        } else {
            Ok(())
        }),
{
    if !key.same_as(&account.key) {
        return Err(ProgramError::Custom(VaultError::IncorrectAccountKey));
    }
    if !account.is_signer {
        return Err(ProgramError::MissingRequiredSignature);
    }
    Ok(())
}

/// Stores `rec` in the storage of the first account.
fn write_record(accounts: &mut Vec<AccountInfo>, rec: &VaultRecord)
    requires
        old(accounts)@.len() > 0,
    ensures
        view_accounts(final(accounts)@) == view_accounts(old(accounts)@).update(
            0,
            with_data(old(accounts)@[0]@, record_bytes(*rec)),
        ),
{
    let data = rec.try_to_vec();
    accounts[0].data = data;
    assert(view_accounts(accounts@) =~= view_accounts(old(accounts)@).update(
        0,
        with_data(old(accounts)@[0]@, record_bytes(*rec)),
    ));
}

/// The vault program: validates a request against one record and applies it.
pub struct Processor {
    /// The identity of this program; only accounts it owns hold records.
    pub program_id: Pubkey,
}

impl Processor {
    /// The program with identity `program_id`.
    pub fn new(program_id: Pubkey) -> (r: Processor)
        ensures
            r.program_id == program_id,
    {
        Processor { program_id }
    }

    /// Decodes `input` as an operation and applies it to `accounts`. A
    /// rejected request leaves every account as it was.
    pub fn process_instruction(&self, accounts: &mut Vec<AccountInfo>, input: &[u8]) -> (r: Result<
        (),
        ProgramError,
    >)
        ensures
            r == reply_of(process_spec(self.program_id, input@, view_accounts(old(accounts)@))),
            view_accounts(final(accounts)@) == accounts_after(
                process_spec(self.program_id, input@, view_accounts(old(accounts)@)),
                view_accounts(old(accounts)@),
            ),
    {
        let instruction = match VaultInstruction::try_from_slice(input) {
            Ok(op) => op,
            Err(e) => return Err(e),
        };
        match instruction {
            VaultInstruction::Initialize => self.process_initialize(accounts),
            VaultInstruction::TransferOwner => self.transfer_owner(accounts),
            VaultInstruction::CloseAccount => self.close_account(accounts),
        }
    }

    /// Initializes a vault record (by the custodian on behalf of a given owner).
    fn process_initialize(&self, accounts: &mut Vec<AccountInfo>) -> (r: Result<(), ProgramError>)
        ensures
            r == reply_of(initialize_spec(self.program_id, view_accounts(old(accounts)@))),
            view_accounts(final(accounts)@) == accounts_after(
                initialize_spec(self.program_id, view_accounts(old(accounts)@)),
                view_accounts(old(accounts)@),
            ),
    {
        if accounts.len() < 3 {
            return Err(ProgramError::NotEnoughAccountKeys);
        }
        if !accounts[0].owner.same_as(&self.program_id) {
            return Err(ProgramError::IncorrectProgramId);
        }
        if !accounts[1].is_signer {
            return Err(ProgramError::MissingRequiredSignature);
        }
        let record = match VaultRecord::try_from_slice(accounts[0].data.as_slice()) {
            Ok(rec) => rec,
            Err(e) => return Err(e),
        };
        if record.is_initialized() {
            return Err(ProgramError::AccountAlreadyInitialized);
        }
        let new_record = VaultRecord {
            dart: accounts[1].key,
            owner: accounts[2].key,
            version: CURRENT_VERSION,
        };
        write_record(accounts, &new_record);
        Ok(())
    }

    /// Transfers ownership of a vault record.
    fn transfer_owner(&self, accounts: &mut Vec<AccountInfo>) -> (r: Result<(), ProgramError>)
        ensures
            r == reply_of(transfer_owner_spec(self.program_id, view_accounts(old(accounts)@))),
            view_accounts(final(accounts)@) == accounts_after(
                transfer_owner_spec(self.program_id, view_accounts(old(accounts)@)),
                view_accounts(old(accounts)@),
            ),
    {
        if accounts.len() < 4 {
            return Err(ProgramError::NotEnoughAccountKeys);
        }
        if !accounts[0].owner.same_as(&self.program_id) {
            return Err(ProgramError::IncorrectProgramId);
        }
        let record = match VaultRecord::try_from_slice(accounts[0].data.as_slice()) {
            Ok(rec) => rec,
            Err(e) => return Err(e),
        };
        if !record.is_initialized() {
            return Err(ProgramError::UninitializedAccount);
        }
        if !record.owner.same_as(&accounts[2].key) {
            return Err(ProgramError::IllegalOwner);
        }
        match validate_signer(&accounts[1], &record.dart) {
            Ok(()) => {},
            Err(e) => return Err(e),
        }
        let new_record = VaultRecord { owner: accounts[3].key, ..record };
        write_record(accounts, &new_record);
        Ok(())
    }

    /// Closes a vault record account, draining its balance to the owner.
    fn close_account(&self, accounts: &mut Vec<AccountInfo>) -> (r: Result<(), ProgramError>)
        ensures
            r == reply_of(close_account_spec(self.program_id, view_accounts(old(accounts)@))),
            view_accounts(final(accounts)@) == accounts_after(
                close_account_spec(self.program_id, view_accounts(old(accounts)@)),
                view_accounts(old(accounts)@),
            ),
    {
        if accounts.len() < 3 {
            return Err(ProgramError::NotEnoughAccountKeys);
        }
        if !accounts[0].owner.same_as(&self.program_id) {
            return Err(ProgramError::IncorrectProgramId);
        }
        let record = match VaultRecord::try_from_slice(accounts[0].data.as_slice()) {
            Ok(rec) => rec,
            Err(e) => return Err(e),
        };
        if !record.is_initialized() {
            return Err(ProgramError::UninitializedAccount);
        }
        match validate_signer(&accounts[1], &record.dart) {
            Ok(()) => {},
            Err(e) => return Err(e),
        }
        if !record.owner.same_as(&accounts[2].key) {
            return Err(ProgramError::IllegalOwner);
        }
        let owner_starting_lamports = accounts[2].lamports;
        let pda_lamports = accounts[0].lamports;
        let owner_lamports = match owner_starting_lamports.checked_add(pda_lamports) {
            Some(sum) => sum,
            None => return Err(ProgramError::Custom(VaultError::Overflow)),
        };
        accounts[0].lamports = 0;
        accounts[2].lamports = owner_lamports;
        assert(view_accounts(accounts@) =~= view_accounts(old(accounts)@).update(
            0,
            with_lamports(old(accounts)@[0]@, 0),
        ).update(2, with_lamports(old(accounts)@[2]@, owner_lamports)));
        Ok(())
    }
}

/// How many account references the operation `op` reads.
pub open spec fn operand_count(op: VaultInstruction) -> nat {
    match op {
        VaultInstruction::TransferOwner => 4,
        _ => 3,
    }
}

/// Initialize on storage that another program owns is rejected with
/// `IncorrectProgramId`, whatever the storage holds.
pub proof fn lemma_initialize_foreign_storage_rejected(pid: Pubkey, a: Seq<AccountView>)
    requires
        a.len() >= 3,
        a[0].owner != pid,
    ensures
        process_spec(pid, instruction_bytes(VaultInstruction::Initialize), a) == Err::<
            Seq<AccountView>,
            ProgramError,
        >(ProgramError::IncorrectProgramId),
{
    lemma_instruction_round_trip(VaultInstruction::Initialize);
}

/// After a successful Initialize, the same request again is rejected with
/// `AccountAlreadyInitialized` and leaves the accounts as the first left them.
pub proof fn lemma_initialize_twice_rejected(pid: Pubkey, a: Seq<AccountView>, first: Seq<AccountView>)
    requires
        process_spec(pid, instruction_bytes(VaultInstruction::Initialize), a) == Ok::<
            Seq<AccountView>,
            ProgramError,
        >(first),
    ensures
        process_spec(pid, instruction_bytes(VaultInstruction::Initialize), first) == Err::<
            Seq<AccountView>,
            ProgramError,
        >(ProgramError::AccountAlreadyInitialized),
        accounts_after(
            process_spec(pid, instruction_bytes(VaultInstruction::Initialize), first),
            first,
        ) == first,
{
    lemma_instruction_round_trip(VaultInstruction::Initialize);
    let new_rec = VaultRecord { dart: a[1].key, owner: a[2].key, version: CURRENT_VERSION };
    lemma_record_round_trip(new_rec);
    assert(first[0].data == record_bytes(new_rec));
}

/// TransferOwner naming someone other than the recorded owner is rejected
/// with `IllegalOwner` and changes nothing; a later request from the signing
/// custodian that names the recorded owner succeeds, and the record then
/// holds the new owner with the custodian and version it had.
pub proof fn lemma_transfer_requires_recorded_owner(
    pid: Pubkey,
    rec: VaultRecord,
    wrong: Seq<AccountView>,
    right: Seq<AccountView>,
)
    requires
        wrong.len() >= 4,
        wrong[0].owner == pid,
        decode_record(wrong[0].data) == Ok::<VaultRecord, crate::error::DecodeError>(rec),
        rec.spec_is_initialized(),
        wrong[2].key != rec.owner,
        right.len() >= 4,
        right[0] == accounts_after(
            process_spec(pid, instruction_bytes(VaultInstruction::TransferOwner), wrong),
            wrong,
        )[0],
        right[1].key == rec.dart,
        right[1].is_signer,
        right[2].key == rec.owner,
    ensures
        process_spec(pid, instruction_bytes(VaultInstruction::TransferOwner), wrong) == Err::<
            Seq<AccountView>,
            ProgramError,
        >(ProgramError::IllegalOwner),
        process_spec(pid, instruction_bytes(VaultInstruction::TransferOwner), right) is Ok,
        decode_record(
            accounts_after(
                process_spec(pid, instruction_bytes(VaultInstruction::TransferOwner), right),
                right,
            )[0].data,
        ) == Ok::<VaultRecord, crate::error::DecodeError>(
            VaultRecord { dart: rec.dart, owner: right[3].key, version: rec.version },
        ),
{
    lemma_instruction_round_trip(VaultInstruction::TransferOwner);
    lemma_record_round_trip(VaultRecord { dart: rec.dart, owner: right[3].key, version: rec.version });
}

/// A successful CloseAccount moves the whole balance of the record account to
/// the owner, leaves the record account at zero and its storage as it was; a
/// second CloseAccount then moves nothing.
pub proof fn lemma_close_drains_once(pid: Pubkey, a: Seq<AccountView>, n: Seq<AccountView>)
    requires
        process_spec(pid, instruction_bytes(VaultInstruction::CloseAccount), a) == Ok::<
            Seq<AccountView>,
            ProgramError,
        >(n),
    ensures
        n.len() == a.len(),
        n[0].lamports == 0,
        n[2].lamports == a[2].lamports + a[0].lamports,
        n[0].data == a[0].data,
        process_spec(pid, instruction_bytes(VaultInstruction::CloseAccount), n) == Ok::<
            Seq<AccountView>,
            ProgramError,
        >(n),
{
    lemma_instruction_round_trip(VaultInstruction::CloseAccount);
    let again = n.update(0, with_lamports(n[0], 0)).update(
        2,
        with_lamports(n[2], (n[2].lamports + n[0].lamports) as u64),
    );
    assert(with_lamports(n[0], 0) == n[0]);
    assert(with_lamports(n[2], (n[2].lamports + n[0].lamports) as u64) == n[2]);
    assert(again =~= n);
}

/// Each operation is rejected with `MissingRequiredSignature` when the
/// custodian did not sign, even where every reference matches the record.
pub proof fn lemma_unsigned_request_rejected(
    pid: Pubkey,
    op: VaultInstruction,
    rec: VaultRecord,
    a: Seq<AccountView>,
)
    requires
        a.len() >= operand_count(op),
        a[0].owner == pid,
        decode_record(a[0].data) == Ok::<VaultRecord, crate::error::DecodeError>(rec),
        op == VaultInstruction::Initialize ==> !rec.spec_is_initialized(),
        op != VaultInstruction::Initialize ==> {
            &&& rec.spec_is_initialized()
            &&& rec.dart == a[1].key
            &&& rec.owner == a[2].key
        },
        !a[1].is_signer,
    ensures
        process_spec(pid, instruction_bytes(op), a) == Err::<Seq<AccountView>, ProgramError>(
            ProgramError::MissingRequiredSignature,
        ),
{
    lemma_instruction_round_trip(op);
}

/// On storage that holds an initialized record, no request changes the
/// custodian or the version, and only a TransferOwner that the recorded
/// custodian signed changes the owner.
pub proof fn lemma_custody_preserved(
    pid: Pubkey,
    input: Seq<u8>,
    rec: VaultRecord,
    a: Seq<AccountView>,
)
    requires
        a.len() > 0,
        decode_record(a[0].data) == Ok::<VaultRecord, crate::error::DecodeError>(rec),
        rec.spec_is_initialized(),
    ensures
        ({
            let after = accounts_after(process_spec(pid, input, a), a);
            &&& after.len() == a.len()
            &&& decode_record(after[0].data) matches Ok(r)
            &&& r.dart == rec.dart
            &&& r.version == rec.version
            &&& r.owner != rec.owner ==> {
                &&& input == instruction_bytes(VaultInstruction::TransferOwner)
                &&& a[1].key == rec.dart
                &&& a[1].is_signer
            }
        }),
{
    match unpack_instruction(input) {
        Err(_) => {},
        Ok(op) => {
            assert(input =~= instruction_bytes(op));
            if op == VaultInstruction::TransferOwner && transfer_owner_spec(pid, a) is Ok {
                lemma_record_round_trip(VaultRecord { owner: a[3].key, ..rec });
            }
        },
    }
}

} // verus!
