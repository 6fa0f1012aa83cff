//! Fixed-size identifiers and the decoding of their canonical text.
//!
//! A signature holds 64 bytes; a public key and a hash hold 32 each. Their
//! canonical text is base-58. The decoding itself is the work of
//! `solana_sdk`; what it yields for a text is named here by
//! [`signature_bytes`], [`pubkey_bytes`] and [`hash_bytes`].

use vstd::prelude::*;
use std::str::FromStr;
use crate::error::LoadError;
use crate::outcome::viewed;

verus! {

#[verifier::external_type_specification]
#[verifier::external_body]
pub struct ExParseSignatureError(solana_sdk::signature::ParseSignatureError);

#[verifier::external_type_specification]
#[verifier::external_body]
pub struct ExParsePubkeyError(solana_sdk::pubkey::ParsePubkeyError);

#[verifier::external_type_specification]
#[verifier::external_body]
pub struct ExParseHashError(solana_sdk::hash::ParseHashError);

/// Whether `c` belongs to the base-58 alphabet: the digits and the letters of
/// ASCII without `0`, `I`, `O` and `l`.
pub open spec fn is_base58_char(c: char) -> bool {
    ||| '1' <= c <= '9'
    ||| 'A' <= c <= 'H'
    ||| 'J' <= c <= 'N'
    ||| 'P' <= c <= 'Z'
    ||| 'a' <= c <= 'k'
    ||| 'm' <= c <= 'z'
}

/// Whether every character of `text` belongs to the base-58 alphabet.
pub open spec fn is_base58_text(text: Seq<char>) -> bool {
    forall|i: int| 0 <= i < text.len() ==> is_base58_char(#[trigger] text[i])
}

/// The 64 bytes that `text` denotes as a signature, if it denotes one.
pub uninterp spec fn signature_bytes(text: Seq<char>) -> Option<Seq<u8>>;

/// The 32 bytes that `text` denotes as a public key, if it denotes one.
pub uninterp spec fn pubkey_bytes(text: Seq<char>) -> Option<Seq<u8>>;

/// The 32 bytes that `text` denotes as a hash, if it denotes one.
pub uninterp spec fn hash_bytes(text: Seq<char>) -> Option<Seq<u8>>;

/// `Signature::from_str` of `solana_sdk`, with the signature handed out as its
/// bytes. The call decides what [`signature_bytes`] is. It refuses a text of
/// more than 88 bytes before it decodes, and its decoder refuses the first
/// byte that is not of the base-58 alphabet.
#[verifier::external_body]
fn signature_from_str(text: &str) -> (r: Result<[u8; 64], solana_sdk::signature::ParseSignatureError>)
    ensures
        match r {
            Ok(bytes) => signature_bytes(text@) == Some(bytes@),
            Err(_) => signature_bytes(text@) is None,
        },
        !is_base58_text(text@) ==> r is Err,
        text@.len() > 88 ==> r is Err,
{
    solana_sdk::signature::Signature::from_str(text).map(|signature| signature.into())
}

/// `Pubkey::from_str` of `solana_sdk`, with the key handed out as its bytes.
/// The call decides what [`pubkey_bytes`] is. It refuses a text of more than
/// 44 bytes before it decodes, and its decoder refuses the first byte that is
/// not of the base-58 alphabet.
#[verifier::external_body]
fn pubkey_from_str(text: &str) -> (r: Result<[u8; 32], solana_sdk::pubkey::ParsePubkeyError>)
    ensures
        match r {
            Ok(bytes) => pubkey_bytes(text@) == Some(bytes@),
            Err(_) => pubkey_bytes(text@) is None,
        },
        !is_base58_text(text@) ==> r is Err,
        text@.len() > 44 ==> r is Err,
{
    solana_sdk::pubkey::Pubkey::from_str(text).map(|key| key.to_bytes())
}

/// `Hash::from_str` of `solana_sdk`, with the hash handed out as its bytes.
/// The call decides what [`hash_bytes`] is. It refuses a text of more than 44
/// bytes before it decodes, and its decoder refuses the first byte that is
/// not of the base-58 alphabet.
#[verifier::external_body]
fn hash_from_str(text: &str) -> (r: Result<[u8; 32], solana_sdk::hash::ParseHashError>)
    ensures
        match r {
            Ok(bytes) => hash_bytes(text@) == Some(bytes@),
            Err(_) => hash_bytes(text@) is None,
        },
        !is_base58_text(text@) ==> r is Err,
        text@.len() > 44 ==> r is Err,
{
    solana_sdk::hash::Hash::from_str(text).map(|hash| hash.to_bytes())
}

/// A signature: 64 bytes.
#[derive(Clone, Copy, Debug, PartialEq, Eq)]
pub struct Signature(pub [u8; 64]);

/// A public key: 32 bytes.
#[derive(Clone, Copy, Debug, PartialEq, Eq)]
pub struct Pubkey(pub [u8; 32]);

/// A hash: 32 bytes.
#[derive(Clone, Copy, Debug, PartialEq, Eq)]
pub struct Hash(pub [u8; 32]);

impl View for Signature {
    type V = Seq<u8>;

    open spec fn view(&self) -> Seq<u8> {
        self.0@
    }
}

impl View for Pubkey {
    type V = Seq<u8>;

    open spec fn view(&self) -> Seq<u8> {
        self.0@
    }
}

impl View for Hash {
    type V = Seq<u8>;

    open spec fn view(&self) -> Seq<u8> {
        self.0@
    }
}

/// What decoding `text` as a signature gives.
pub open spec fn spec_signature(text: Seq<char>) -> Result<Seq<u8>, LoadError> {
    match signature_bytes(text) {
        Some(bytes) => Ok(bytes),
        None => Err(LoadError::Encoding),
    }
}

/// What decoding `text` as a public key gives.
pub open spec fn spec_pubkey(text: Seq<char>) -> Result<Seq<u8>, LoadError> {
    match pubkey_bytes(text) {
        Some(bytes) => Ok(bytes),
        None => Err(LoadError::Encoding),
    }
}

/// What decoding `text` as a hash gives.
pub open spec fn spec_hash(text: Seq<char>) -> Result<Seq<u8>, LoadError> {
    match hash_bytes(text) {
        Some(bytes) => Ok(bytes),
        None => Err(LoadError::Encoding),
    }
}

impl Signature {
    /// Decodes the canonical text of a signature. A text that does not denote
    /// 64 bytes is an encoding error; so is, in particular, every text with a
    /// character outside the base-58 alphabet or with more than 88
    /// characters.
    pub fn from_str(text: &str) -> (r: Result<Signature, LoadError>)
        ensures
            viewed(r) == spec_signature(text@),
            r is Ok ==> r->Ok_0@.len() == 64,
            !is_base58_text(text@) || text@.len() > 88 ==> r is Err && r->Err_0
                == LoadError::Encoding,
    {
        Signature::from_parsed(signature_from_str(text))
    }

    /// The signature of the bytes that parsing gave, or the encoding error that
    /// stands for every failure of the parser.
    pub fn from_parsed(parsed: Result<[u8; 64], solana_sdk::signature::ParseSignatureError>) -> (r: Result<
        Signature,
        LoadError,
    >)
        ensures
            r == match parsed {
                Ok(bytes) => Ok::<Signature, LoadError>(Signature(bytes)),
                Err(_) => Err(LoadError::Encoding),
            },
    {
        match parsed {
            Ok(bytes) => Ok(Signature(bytes)),
            Err(_) => Err(LoadError::Encoding),
        }
    }
}

impl Pubkey {
    /// Decodes the canonical text of a public key. A text that does not
    /// denote 32 bytes is an encoding error; so is, in particular, every text
    /// with a character outside the base-58 alphabet or with more than 44
    /// characters.
    pub fn from_str(text: &str) -> (r: Result<Pubkey, LoadError>)
        ensures
            viewed(r) == spec_pubkey(text@),
            r is Ok ==> r->Ok_0@.len() == 32,
            !is_base58_text(text@) || text@.len() > 44 ==> r is Err && r->Err_0
                == LoadError::Encoding,
    {
        Pubkey::from_parsed(pubkey_from_str(text))
    }

    /// The public key of the bytes that parsing gave, or the encoding error that
    /// stands for every failure of the parser.
    pub fn from_parsed(parsed: Result<[u8; 32], solana_sdk::pubkey::ParsePubkeyError>) -> (r: Result<
        Pubkey,
        LoadError,
    >)
        ensures
            r == match parsed {
                Ok(bytes) => Ok::<Pubkey, LoadError>(Pubkey(bytes)),
                Err(_) => Err(LoadError::Encoding),
            },
    {
        match parsed {
            Ok(bytes) => Ok(Pubkey(bytes)),
            Err(_) => Err(LoadError::Encoding),
        }
    }
}

impl Hash {
    /// Decodes the canonical text of a hash. A text that does not denote 32
    /// bytes is an encoding error; so is, in particular, every text with a
    /// character outside the base-58 alphabet or with more than 44
    /// characters.
    pub fn from_str(text: &str) -> (r: Result<Hash, LoadError>)
        ensures
            viewed(r) == spec_hash(text@),
            r is Ok ==> r->Ok_0@.len() == 32,
            !is_base58_text(text@) || text@.len() > 44 ==> r is Err && r->Err_0
                == LoadError::Encoding,
    {
        Hash::from_parsed(hash_from_str(text))
    }

    /// The hash of the bytes that parsing gave, or the encoding error that
    /// stands for every failure of the parser.
    pub fn from_parsed(parsed: Result<[u8; 32], solana_sdk::hash::ParseHashError>) -> (r: Result<
        Hash,
        LoadError,
    >)
        ensures
            r == match parsed {
                Ok(bytes) => Ok::<Hash, LoadError>(Hash(bytes)),
                Err(_) => Err(LoadError::Encoding),
            },
    {
        match parsed {
            Ok(bytes) => Ok(Hash(bytes)),
            Err(_) => Err(LoadError::Encoding),
        }
    }
}

} // verus!
