use std::str::FromStr;
use vstd::prelude::*;

verus! {

/// The base58 text of a public key, as `solana_sdk` displays it.
pub uninterp spec fn pubkey_base58(bytes: Seq<u8>) -> Seq<char>;

/// The bytes that `solana_sdk` reads from the base58 text of a public key,
/// `None` where it refuses the text.
pub uninterp spec fn pubkey_from_base58(text: Seq<char>) -> Option<Seq<u8>>;

/// The bytes that `solana_sdk` reads from the base58 text of a hash,
/// `None` where it refuses the text.
pub uninterp spec fn hash_from_base58(text: Seq<char>) -> Option<Seq<u8>>;

/// The base58 text of a signature, as `solana_sdk` displays it.
pub uninterp spec fn signature_base58(bytes: Seq<u8>) -> Seq<char>;

/// The bytes that `solana_sdk` reads from the base58 text of a signature,
/// `None` where it refuses the text.
pub uninterp spec fn signature_from_base58(text: Seq<char>) -> Option<Seq<u8>>;

/// Calls `FromStr::from_str` of `solana_sdk::signature::Signature`; what it
/// reads is given the name `signature_from_base58`.
#[verifier::external_body]
fn decode_signature(text: &str) -> (bytes: Option<[u8; 64]>)
    ensures
        match bytes {
            Some(b) => signature_from_base58(text@) == Some(b@),
            None => signature_from_base58(text@) is None,
        },
{
    match solana_sdk::signature::Signature::from_str(text) {
        Ok(signature) => Some(signature.into()),
        Err(_) => None,
    }
}

/// Calls `Display::fmt` of `solana_sdk::pubkey::Pubkey` (base58 of the bytes);
/// the text is given the name `pubkey_base58`.
#[verifier::external_body]
fn encode_pubkey(bytes: [u8; 32]) -> (text: String)
    ensures
        text@ == pubkey_base58(bytes@),
{
    solana_sdk::pubkey::Pubkey::new_from_array(bytes).to_string()
}

/// Calls `FromStr::from_str` of `solana_sdk::pubkey::Pubkey`; what it reads is
/// given the name `pubkey_from_base58`.
#[verifier::external_body]
fn decode_pubkey(text: &str) -> (bytes: Option<[u8; 32]>)
    ensures
        match bytes {
            Some(b) => pubkey_from_base58(text@) == Some(b@),
            None => pubkey_from_base58(text@) is None,
        },
{
    match solana_sdk::pubkey::Pubkey::from_str(text) {
        Ok(key) => Some(key.to_bytes()),
        Err(_) => None,
    }
}

/// Calls `FromStr::from_str` of `solana_sdk::hash::Hash`; what it reads is
/// given the name `hash_from_base58`.
#[verifier::external_body]
fn decode_hash(text: &str) -> (bytes: Option<[u8; 32]>)
    ensures
        match bytes {
            Some(b) => hash_from_base58(text@) == Some(b@),
            None => hash_from_base58(text@) is None,
        },
{
    match solana_sdk::hash::Hash::from_str(text) {
        Ok(hash) => Some(hash.to_bytes()),
        Err(_) => None,
    }
}

/// Calls `Display::fmt` of `solana_sdk::signature::Signature` (base58 of the
/// bytes, which its `Debug::fmt` writes too); the text is given the name
/// `signature_base58`.
#[verifier::external_body]
fn encode_signature(bytes: [u8; 64]) -> (text: String)
    ensures
        text@ == signature_base58(bytes@),
{
    solana_sdk::signature::Signature::from(bytes).to_string()
}

/// The public key of an account: 32 bytes.
#[derive(Clone, Copy, Debug)]
pub struct Pubkey {
    bytes: [u8; 32],
}

impl View for Pubkey {
    type V = Seq<u8>;

    closed spec fn view(&self) -> Seq<u8> {
        self.bytes@
    }
}

impl Pubkey {
    pub fn new_from_array(bytes: [u8; 32]) -> (k: Pubkey)
        ensures
            k@ == bytes@,
    {
        Pubkey { bytes }
    }

    pub fn to_bytes(&self) -> (bytes: [u8; 32])
        ensures
            bytes@ == self@,
    {
        self.bytes
    }

    /// The key read from its base58 text, `None` where the text is no key.
    pub fn from_base58(text: &str) -> (k: Option<Pubkey>)
        ensures
            match k {
                Some(k) => pubkey_from_base58(text@) == Some(k@),
                None => pubkey_from_base58(text@) is None,
            },
    {
        match decode_pubkey(text) {
            Some(bytes) => Some(Pubkey { bytes }),
            None => None,
        }
    }

    /// The base58 text of the key.
    pub fn to_base58(&self) -> (text: String)
        ensures
            text@ == pubkey_base58(self@),
    {
        encode_pubkey(self.bytes)
    }
}

/// A hash of the ledger (a blockhash, the genesis hash): 32 bytes.
#[derive(Clone, Copy, Debug)]
pub struct Hash {
    bytes: [u8; 32],
}

impl View for Hash {
    type V = Seq<u8>;

    closed spec fn view(&self) -> Seq<u8> {
        self.bytes@
    }
}

impl Hash {
    pub fn new_from_array(bytes: [u8; 32]) -> (h: Hash)
        ensures
            h@ == bytes@,
    {
        Hash { bytes }
    }

    pub fn to_bytes(&self) -> (bytes: [u8; 32])
        ensures
            bytes@ == self@,
    {
        self.bytes
    }

    /// The hash read from its base58 text, `None` where the text is no hash.
    pub fn from_base58(text: &str) -> (h: Option<Hash>)
        ensures
            match h {
                Some(h) => hash_from_base58(text@) == Some(h@),
                None => hash_from_base58(text@) is None,
            },
    {
        match decode_hash(text) {
            Some(bytes) => Some(Hash { bytes }),
            None => None,
        }
    }
}

/// The signature of a transaction: 64 bytes.
#[derive(Clone, Copy, Debug)]
pub struct Signature {
    bytes: [u8; 64],
}

impl View for Signature {
    type V = Seq<u8>;

    closed spec fn view(&self) -> Seq<u8> {
        self.bytes@
    }
}

impl Signature {
    pub fn new_from_array(bytes: [u8; 64]) -> (s: Signature)
        ensures
            s@ == bytes@,
    {
        Signature { bytes }
    }

    pub fn to_bytes(&self) -> (bytes: [u8; 64])
        ensures
            bytes@ == self@,
    {
        self.bytes
    }

    /// The signature read from its base58 text, `None` where the text is no
    /// signature.
    pub fn from_base58(text: &str) -> (s: Option<Signature>)
        ensures
            match s {
                Some(s) => signature_from_base58(text@) == Some(s@),
                None => signature_from_base58(text@) is None,
            },
    {
        match decode_signature(text) {
            Some(bytes) => Some(Signature { bytes }),
            None => None,
        }
    }

    /// The base58 text of the signature.
    pub fn to_base58(&self) -> (text: String)
        ensures
            text@ == signature_base58(self@),
    {
        encode_signature(self.bytes)
    }

    /// Whether two signatures hold the same bytes.
    pub fn same_as(&self, other: &Signature) -> (b: bool)
        ensures
            b == (self@ == other@),
    {
        let mut i: usize = 0;
        while i < 64
            invariant
                0 <= i <= 64,
                self.bytes@.len() == 64,
                other.bytes@.len() == 64,
                forall|j: int| 0 <= j < i ==> self.bytes@[j] == other.bytes@[j],
            decreases 64 - i,
        {
            if self.bytes[i] != other.bytes[i] {
                return false;
            }
            i = i + 1;
        }
        assert(self.bytes@ =~= other.bytes@);
        true
    }
}

} // verus!
