use crate::pubkey::{base58_text, key_text, Pubkey};
use vstd::prelude::*;

verus! {

/// The balance of a vault account.
#[derive(Debug)]
pub struct Balance {
    /// The account's address, in base58.
    pub pda: String,
    pub lamports: u64,
}

/// The hash that identifies a submitted transaction.
#[derive(Debug)]
pub struct Signature {
    pub hash: String,
}

/// A newly created vault account.
#[derive(Debug)]
pub struct VaultAccount {
    /// The account's address, in base58.
    pub pda: String,
    /// The transaction that created it, once known.
    pub signature: Option<Signature>,
}

impl Balance {
    /// The balance `lamports` of the account at `pda`.
    pub fn new(pda: &Pubkey, lamports: u64) -> (r: Balance)
        ensures
            r.pda@ == base58_text(pda@),
            r.lamports == lamports,
    {
        Balance { pda: key_text(pda), lamports }
    }
}

impl VaultAccount {
    /// The account at `pda`, created by the transaction with hash `hash`.
    pub fn new(pda: &Pubkey, hash: String) -> (r: VaultAccount)
        ensures
            r.pda@ == base58_text(pda@),
            r.signature matches Some(s) && s.hash@ == hash@,
    {
        VaultAccount { pda: key_text(pda), signature: Some(Signature { hash }) }
    }

    /// The hash of the creating transaction, or the empty text where none
    /// is known.
    pub fn signature_hash(&self) -> (r: String)
        ensures
            r@ == match self.signature {
                Some(s) => s.hash@,
                None => Seq::<char>::empty(),
            },
    {
        match &self.signature {
            Some(s) => s.hash.clone(),
            None => String::new(),
        }
    }
}

} // verus!
