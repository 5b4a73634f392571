use vstd::prelude::*;
use vstd::string::StringSliceAdditionalSpecFns;

verus! {

/// Width in bytes of an account identity.
pub const PUBKEY_BYTES: usize = 32;

/// The identity of a ledger account: 32 opaque bytes.
#[derive(Clone, Copy, Debug)]
pub struct Pubkey {
    pub bytes: [u8; 32],
}

impl View for Pubkey {
    type V = Seq<u8>;

    open spec fn view(&self) -> Seq<u8> {
        self.bytes@
    }
}

impl Pubkey {
    /// The identity with the given bytes.
    pub fn new_from_array(bytes: [u8; 32]) -> (r: Pubkey)
        ensures
            r.bytes == bytes,
    {
        Pubkey { bytes }
    }

    /// The bytes of this identity.
    pub fn to_bytes(&self) -> (r: [u8; 32])
        ensures
            r == self.bytes,
    {
        self.bytes
    }

    /// Whether two identities are the same, byte for byte.
    pub fn same_as(&self, other: &Pubkey) -> (r: bool)
        ensures
            r == (self.bytes == other.bytes),
    {
        let mut i: usize = 0;
        while i < PUBKEY_BYTES
            invariant
                i <= PUBKEY_BYTES,
                forall|j: int| 0 <= j < i ==> self.bytes[j] == other.bytes[j],
            decreases PUBKEY_BYTES - i,
        {
            if self.bytes[i] != other.bytes[i] {
                return false;
            }
            i = i + 1;
        }
        assert(self.bytes =~= other.bytes);
        true
    }
}

/// The identity whose bytes are `s` (meaningful when `s` has 32 bytes).
pub open spec fn key_from_bytes(s: Seq<u8>) -> Pubkey {
    Pubkey { bytes: choose|a: [u8; 32]| a@ == s }
}

/// Reading a key's own bytes as a key gives the key back.
pub proof fn lemma_key_round_trip(k: Pubkey)
    ensures
        key_from_bytes(k@) == k,
{
    let a = choose|a: [u8; 32]| a@ == k@;
    assert(exists|a: [u8; 32]| a@ == k@) by {
        assert(k.bytes@ == k@);
    }
    assert(a@ == k.bytes@);
    assert(a =~= k.bytes) by {
        assert forall|i: int| 0 <= i < 32 implies a[i] == k.bytes[i] by {
            assert(a@[i] == k.bytes@[i]);
        }
    }
}

/// Longest text that can spell an identity in base58.
pub const MAX_BASE58_LEN: usize = 44;

/// The bytes that `bs58` decodes a text to, or `None` where the text is not
/// base58.
pub uninterp spec fn base58_decoded(s: Seq<char>) -> Option<Seq<u8>>;

/// The base58 text that `bs58` encodes a byte string to.
pub uninterp spec fn base58_text(b: Seq<u8>) -> Seq<char>;

/// Why a text does not spell an identity.
#[derive(Clone, Copy, Debug, PartialEq, Eq, Structural)]
pub enum ParsePubkeyError {
    /// The text, or what it decodes to, has the wrong length.
    WrongSize,
    /// The text is not base58.
    Invalid,
}

/// What parsing a text gives, from its length in bytes and what it
/// base58-decodes to.
pub open spec fn parse_outcome(text_len: nat, decoded: Option<Seq<u8>>) -> Result<
    Pubkey,
    ParsePubkeyError,
> {
    if text_len > MAX_BASE58_LEN {
        Err(ParsePubkeyError::WrongSize)
    } else {
        match decoded {
            None => Err(ParsePubkeyError::Invalid),
            Some(b) => if b.len() == 32 {
                Ok(key_from_bytes(b))
            } else {
                Err(ParsePubkeyError::WrongSize)
            },
        }
    }
}

/// Relies on solana_program's `Pubkey::from_str`: a text over 44 bytes is the
/// wrong size; otherwise it is base58-decoded and must give 32 bytes.
#[verifier::external_body]
pub(crate) fn parse_key(s: &str) -> (r: Result<Pubkey, ParsePubkeyError>)
    ensures
        r == parse_outcome(s.spec_bytes().len(), base58_decoded(s@)),
{
    match <solana_program::pubkey::Pubkey as std::str::FromStr>::from_str(s) {
        Ok(k) => Ok(Pubkey { bytes: k.to_bytes() }),
        Err(solana_program::pubkey::ParsePubkeyError::WrongSize) => Err(ParsePubkeyError::WrongSize),
        Err(solana_program::pubkey::ParsePubkeyError::Invalid) => Err(ParsePubkeyError::Invalid),
    }
}

/// Relies on solana_program's `Display` for `Pubkey`: the base58 text of the
/// identity's bytes.
#[verifier::external_body]
pub(crate) fn key_text(k: &Pubkey) -> (r: String)
    ensures
        r@ == base58_text(k@),
{
    solana_program::pubkey::Pubkey::new_from_array(k.bytes).to_string()
}

impl PartialEq for Pubkey {
    fn eq(&self, other: &Pubkey) -> (r: bool) {
        self.same_as(other)
    }
}

impl vstd::std_specs::cmp::PartialEqSpecImpl for Pubkey {
    open spec fn obeys_eq_spec() -> bool {
        true
    }

    open spec fn eq_spec(&self, other: &Pubkey) -> bool {
        self.bytes == other.bytes
    }
}

impl Eq for Pubkey {
}

} // verus!
