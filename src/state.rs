use crate::error::{DecodeError, ProgramError};
use crate::pubkey::{key_from_bytes, lemma_key_round_trip, Pubkey, PUBKEY_BYTES};
use vstd::prelude::*;

verus! {

/// Version tag of storage that has never been initialized.
pub const UNINITIALIZED_VERSION: u8 = 0;

/// Version tag of the one record layout in use.
pub const CURRENT_VERSION: u8 = 1;

/// Length in bytes of an encoded record: two identities and a version tag.
pub const RECORD_LEN: usize = 65;

/// The custody record kept in a vault account.
#[derive(Clone, Copy, Debug)]
pub struct VaultRecord {
    /// The custodian, whose signature every change needs.
    pub dart: Pubkey,
    /// The current owner of the position.
    pub owner: Pubkey,
    /// The layout version; the blank tag while uninitialized.
    pub version: u8,
}

/// Whether `v` is a version tag a record may hold.
pub open spec fn valid_version_tag(v: u8) -> bool {
    v == UNINITIALIZED_VERSION || v == CURRENT_VERSION
}

/// The encoding of a record: custodian, owner, version tag.
pub open spec fn record_bytes(r: VaultRecord) -> Seq<u8> {
    r.dart@ + r.owner@ + seq![r.version]
}

/// What a byte buffer decodes to as a record.
pub open spec fn decode_record(b: Seq<u8>) -> Result<VaultRecord, DecodeError> {
    if b.len() != RECORD_LEN {
        Err(DecodeError::WrongLength)
    } else if !valid_version_tag(b[64]) {
        Err(DecodeError::UnknownVersion(b[64]))
    } else {
        Ok(
            VaultRecord {
                dart: key_from_bytes(b.subrange(0, 32)),
                owner: key_from_bytes(b.subrange(32, 64)),
                version: b[64],
            },
        )
    }
}

/// `decode_record` with its error lifted to a program error.
pub open spec fn unpack_result(b: Seq<u8>) -> Result<VaultRecord, ProgramError> {
    match decode_record(b) {
        Ok(r) => Ok(r),
        Err(e) => Err(ProgramError::BorshIoError(e)),
    }
}

/// Reads the 32 bytes of `data` from `start` as an identity.
fn read_key(data: &[u8], start: usize) -> (k: Pubkey)
    requires
        start + 32 <= data@.len(),
    ensures
        k@ == data@.subrange(start as int, start + 32),
{
    let n = data.len();
    let mut bytes: [u8; 32] = [0u8; 32];
    let mut i: usize = 0;
    while i < PUBKEY_BYTES
        invariant
            i <= PUBKEY_BYTES,
            n == data@.len(),
            start + 32 <= n,
            forall|j: int| 0 <= j < i ==> bytes[j] == data@[start + j],
        decreases PUBKEY_BYTES - i,
    {
        bytes[i] = data[start + i];
        i = i + 1;
    }
    let k = Pubkey { bytes };
    assert(k@ =~= data@.subrange(start as int, start + 32));
    k
}

impl VaultRecord {
    /// Version tag of the one record layout in use.
    pub const CURRENT_VERSION: u8 = CURRENT_VERSION;

    /// Length in bytes of an encoded record.
    pub const LEN: usize = RECORD_LEN;

    /// Whether the record holds the supported version.
    pub open spec fn spec_is_initialized(&self) -> bool {
        self.version == CURRENT_VERSION
    }

    /// Whether the record may stand in storage: its tag is a known one.
    pub open spec fn is_valid(&self) -> bool {
        valid_version_tag(self.version)
    }

    /// Whether the record holds the supported version.
    pub fn is_initialized(&self) -> (r: bool)
        ensures
            r == self.spec_is_initialized(),
    {
        self.version == CURRENT_VERSION
    }

    /// The blank record of fresh storage.
    pub fn uninitialized() -> (r: VaultRecord)
        ensures
            r@ == Seq::new(RECORD_LEN as nat, |i: int| 0u8),
            !r.spec_is_initialized(),
            r.is_valid(),
    {
        let r = VaultRecord {
            dart: Pubkey { bytes: [0u8; 32] },
            owner: Pubkey { bytes: [0u8; 32] },
            version: UNINITIALIZED_VERSION,
        };
        assert(r@ =~= Seq::new(RECORD_LEN as nat, |i: int| 0u8));
        r
    }

    /// Decodes a record: the buffer must be exactly `RECORD_LEN` bytes long
    /// and end in a known version tag.
    pub fn try_from_slice(data: &[u8]) -> (r: Result<VaultRecord, ProgramError>)
        ensures
            r == unpack_result(data@),
    {
        if data.len() != RECORD_LEN {
            return Err(ProgramError::BorshIoError(DecodeError::WrongLength));
        }
        let version = data[64];
        if version != UNINITIALIZED_VERSION && version != CURRENT_VERSION {
            return Err(ProgramError::BorshIoError(DecodeError::UnknownVersion(version)));
        }
        let dart = read_key(data, 0);
        let owner = read_key(data, 32);
        proof {
            lemma_key_round_trip(dart);
            lemma_key_round_trip(owner);
        }
        Ok(VaultRecord { dart, owner, version })
    }

    /// Encodes the record: custodian, owner, version tag.
    pub fn try_to_vec(&self) -> (v: Vec<u8>)
        ensures
            v@ == self@,
            v@.len() == RECORD_LEN,
    {
        let mut v: Vec<u8> = Vec::with_capacity(RECORD_LEN);
        let mut i: usize = 0;
        while i < PUBKEY_BYTES
            invariant
                i <= PUBKEY_BYTES,
                v@ =~= self.dart@.subrange(0, i as int),
            decreases PUBKEY_BYTES - i,
        {
            v.push(self.dart.bytes[i]);
            i = i + 1;
        }
        let mut i: usize = 0;
        while i < PUBKEY_BYTES
            invariant
                i <= PUBKEY_BYTES,
                v@ =~= self.dart@ + self.owner@.subrange(0, i as int),
            decreases PUBKEY_BYTES - i,
        {
            v.push(self.owner.bytes[i]);
            i = i + 1;
        }
        v.push(self.version);
        assert(v@ =~= self@);
        v
    }
}

impl View for VaultRecord {
    type V = Seq<u8>;

    /// A record is seen as its encoding.
    open spec fn view(&self) -> Seq<u8> {
        record_bytes(*self)
    }
}

/// Decoding the encoding of a valid record gives the record back.
pub proof fn lemma_record_round_trip(r: VaultRecord)
    requires
        r.is_valid(),
    ensures
        decode_record(record_bytes(r)) == Ok::<VaultRecord, DecodeError>(r),
{
    let b = record_bytes(r);
    assert(b.subrange(0, 32) =~= r.dart@);
    assert(b.subrange(32, 64) =~= r.owner@);
    lemma_key_round_trip(r.dart);
    lemma_key_round_trip(r.owner);
}

} // verus!
