use crate::driver::{error_text, Error as DriverError, MAX_SEED_LEN};
use crate::pubkey::{parse_key, ParsePubkeyError, Pubkey};
use vstd::prelude::*;
use vstd::string::StringSliceAdditionalSpecFns;
use vstd::utf8::encode_utf8;

verus! {

/// Errors the service reports to its callers.
#[derive(Debug)]
pub enum Error {
    /// The request was malformed.
    InvalidArgument { message: String },
    /// The request could not be carried out.
    InternalError { message: String },
}

impl Error {
    /// A driver error, reported as an internal error with the driver's text.
    pub fn from_driver(error: DriverError) -> (r: Error)
        ensures
            r matches Error::InternalError { message } && message@ == error_text(&error),
    {
        Error::InternalError { message: error.to_string() }
    }

    /// A key that did not parse, reported as an invalid argument.
    pub fn from_parse_error(error: ParsePubkeyError) -> (r: Error)
        ensures
            r matches Error::InvalidArgument { message } && message@ == parse_error_text(error),
    {
        let message = match error {
            ParsePubkeyError::WrongSize => "String is the wrong size".to_owned(),
            ParsePubkeyError::Invalid => "Invalid Base58 string".to_owned(),
        };
        Error::InvalidArgument { message }
    }
}

/// The text of a key-parsing error.
pub open spec fn parse_error_text(e: ParsePubkeyError) -> Seq<char> {
    match e {
        ParsePubkeyError::WrongSize => "String is the wrong size"@,
        ParsePubkeyError::Invalid => "Invalid Base58 string"@,
    }
}

/// Parses an account identity from its base58 text.
pub fn parse_pubkey(pubkey: &str) -> (r: Result<Pubkey, Error>)
    ensures
        match crate::pubkey::parse_outcome(
            pubkey.spec_bytes().len(),
            crate::pubkey::base58_decoded(pubkey@),
        ) {
            Ok(k) => r == Ok::<Pubkey, Error>(k),
            Err(e) => r matches Err(Error::InvalidArgument { message }) && message@
                == parse_error_text(e),
        },
{
    match parse_key(pubkey) {
        Ok(k) => Ok(k),
        Err(e) => Err(Error::from_parse_error(e)),
    }
}

/// The text that `str::trim` leaves: leading and trailing Unicode white
/// space removed.
pub uninterp spec fn trimmed(s: Seq<char>) -> Seq<char>;

/// Relies on `str::trim`: the text without its leading and trailing white
/// space.
#[verifier::external_body]
fn trim(s: &str) -> (r: &str)
    ensures
        r@ == trimmed(s@),
{
    s.trim()
}

/// The text of a rejected seed.
pub open spec fn invalid_seed_text() -> Seq<char> {
    "invalid seed length: {seed_len}"@
}

/// Trims a seed and checks that it is between 1 and 32 bytes long.
pub fn validate_seed(seed: &str) -> (r: Result<String, Error>)
    ensures
        ({
            let t = trimmed(seed@);
            if t.len() == 0 || encode_utf8(t).len() > MAX_SEED_LEN {
                r matches Err(Error::InvalidArgument { message }) && message@
                    == invalid_seed_text()
            } else {
                r matches Ok(s) && s@ == t
            }
        }),
{
    let seed = trim(seed);
    let seed_len = seed.as_bytes().len();
    if seed.is_empty() || seed_len > MAX_SEED_LEN {
        Err(Error::InvalidArgument { message: "invalid seed length: {seed_len}".to_owned() })
    } else {
        Ok(seed.to_owned())
    }
}

} // verus!
