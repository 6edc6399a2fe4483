//! The key under which the engine encrypts what it stores.
//!
//! The key lives in a secret store that the caller reads and writes. On the
//! first run the store has no entry: a key is made from 32 random bytes,
//! written as 64 hexadecimal digits, and the caller is told to store it.

use rand::RngCore;
use vstd::prelude::*;
use vstd::string::*;

verus! {

/// The number of random bytes in a new key.
pub const KEY_BYTES: usize = 32;

/// What the secret store answered when it was asked for the key.
#[derive(Clone, Debug, PartialEq, Eq)]
pub enum KeyLookup {
    /// The store holds this key.
    Found { key: String },
    /// The store holds no key yet.
    NoEntry,
    /// The store could not be read.
    Failed { reason: String },
}

/// The key to use.
#[derive(Clone, Debug, PartialEq, Eq)]
pub struct EncryptionKey {
    pub key: String,
    /// Whether the key is new, and is still to be written to the store.
    pub created: bool,
}

/// Why there is no key.
#[derive(Clone, Debug, PartialEq, Eq)]
pub enum KeyError {
    /// The store could not be read.
    Store { reason: String },
    /// The system gave no random bytes.
    NoRandomness,
}

impl KeyError {
    /// The message that states the error.
    pub open spec fn message(self) -> Seq<char> {
        match self {
            KeyError::Store { reason } => "Failed to retrieve encryption key from keyring: "@
                + reason@,
            KeyError::NoRandomness => "Failed to generate a new encryption key"@,
        }
    }

    pub fn to_string(&self) -> (r: String)
        ensures
            r@ == self.message(),
    {
        match self {
            KeyError::Store { reason } =>
                "Failed to retrieve encryption key from keyring: ".to_owned().concat(
                reason.as_str(),
            ),
            KeyError::NoRandomness => "Failed to generate a new encryption key".to_owned(),
        }
    }
}

/// The digit for a number below 16.
pub open spec fn hex_digit(n: int) -> char {
    "0123456789abcdef"@[n]
}

/// Bytes in hexadecimal: two lowercase digits for each byte, the high half first.
pub open spec fn hex_text(bytes: Seq<u8>) -> Seq<char> {
    Seq::new(
        2 * bytes.len(),
        |i: int|
            hex_digit(
                if i % 2 == 0 {
                    bytes[i / 2] as int / 16
                } else {
                    bytes[i / 2] as int % 16
                },
            ),
    )
}

pub open spec fn is_hex_digit(c: char) -> bool {
    ('0' <= c && c <= '9') || ('a' <= c && c <= 'f')
}

/// Whether a text has the form of a key that was made here.
pub open spec fn is_fresh_key(key: Seq<char>) -> bool {
    &&& key.len() == 2 * KEY_BYTES
    &&& forall|i: int| 0 <= i < key.len() ==> is_hex_digit(#[trigger] key[i])
}

/// Bytes in hexadecimal are twice as many digits.
pub proof fn lemma_hex_text_is_digits(bytes: Seq<u8>)
    ensures
        hex_text(bytes).len() == 2 * bytes.len(),
        forall|i: int| 0 <= i < hex_text(bytes).len() ==> is_hex_digit(#[trigger] hex_text(bytes)[i]),
{
    reveal_strlit("0123456789abcdef");
    assert forall|i: int| 0 <= i < hex_text(bytes).len() implies is_hex_digit(
        #[trigger] hex_text(bytes)[i],
    ) by {
        let b = bytes[i / 2] as int;
        let n = if i % 2 == 0 {
            b / 16
        } else {
            b % 16
        };
        assert(0 <= n < 16);
        assert(hex_text(bytes)[i] == hex_digit(n));
        assert(is_hex_digit("0123456789abcdef"@[n]));
    }
}

/// `hex::encode`: each byte as two lowercase hexadecimal digits, the high
/// half first.
#[verifier::external_body]
fn encode_hex(bytes: &Vec<u8>) -> (r: String)
    ensures
        r@ == hex_text(bytes@),
{
    hex::encode(bytes)
}

/// `rand::rngs::OsRng` through `RngCore::try_fill_bytes`: `count` bytes from
/// the system's source of randomness, or `None` where the system gave none.
/// Nothing is known of the bytes but their number. The number is kept small,
/// so that the buffer can always be had.
#[verifier::external_body]
fn random_bytes(count: usize) -> (r: Option<Vec<u8>>)
    requires
        count <= 4096,
    ensures
        r matches Some(bytes) ==> bytes@.len() == count,
{
    let mut bytes = vec![0u8; count];
    rand::rngs::OsRng.try_fill_bytes(&mut bytes).ok()?;
    Some(bytes)
}

/// The key that is made of the given random bytes.
pub fn key_from_bytes(bytes: &Vec<u8>) -> (key: String)
    ensures
        key@ == hex_text(bytes@),
        bytes@.len() == KEY_BYTES ==> is_fresh_key(key@),
{
    proof {
        lemma_hex_text_is_digits(bytes@);
    }
    encode_hex(bytes)
}

/// Makes a new key from the system's randomness.
pub fn generate_encryption_key() -> (r: Option<String>)
    ensures
        r matches Some(key) ==> is_fresh_key(key@),
{
    key_from_randomness(random_bytes(KEY_BYTES))
}

/// The key that follows from what the source of randomness gave: the bytes
/// in hexadecimal where it gave some, and no key where it gave none.
pub fn key_from_randomness(outcome: Option<Vec<u8>>) -> (r: Option<String>)
    ensures
        match outcome {
            Some(bytes) => {
                &&& r matches Some(key)
                &&& key@ == hex_text(bytes@)
                &&& bytes@.len() == KEY_BYTES ==> is_fresh_key(key@)
            },
            None => r is None,
        },
{
    match outcome {
        Some(bytes) => Some(key_from_bytes(&bytes)),
        None => None,
    }
}

/// Whether `r` is what follows from the store's answer `stored`.
///
/// A key that the store holds is used as it is. Where the store holds none, a
/// new one is made, to be stored by the caller. Where the store could not be
/// read there is an error, and no key is made.
pub open spec fn chooses_key(stored: KeyLookup, r: Result<EncryptionKey, KeyError>) -> bool {
    match stored {
        KeyLookup::Found { key } => r matches Ok(chosen) && chosen.key@ == key@
            && !chosen.created,
        KeyLookup::NoEntry => match r {
            Ok(chosen) => chosen.created && is_fresh_key(chosen.key@),
            Err(e) => e is NoRandomness,
        },
        KeyLookup::Failed { reason } => r matches Err(KeyError::Store { reason: told })
            && told@ == reason@,
    }
}

/// Settles on the key, given what the secret store answered.
pub fn get_or_create_encryption_key(stored: KeyLookup) -> (r: Result<EncryptionKey, KeyError>)
    ensures
        chooses_key(stored, r),
{
    match stored {
        KeyLookup::Found { key } => Ok(EncryptionKey { key, created: false }),
        KeyLookup::NoEntry => match generate_encryption_key() {
            Some(key) => Ok(EncryptionKey { key, created: true }),
            None => Err(KeyError::NoRandomness),
        },
        KeyLookup::Failed { reason } => Err(KeyError::Store { reason }),
    }
}

} // verus!
