//! What can go wrong: at startup, and in one attempt.

use openssl::error::ErrorStack;
use vstd::prelude::*;

verus! {

/// Why a key was refused or a payload could not be encrypted.
#[derive(Debug)]
pub enum EncryptionFault {
    /// The key body holds characters outside ASCII, so it is not base64.
    KeyNotText,
    /// The armored key is longer than the backend can read.
    KeyTooLong,
    /// The modulus of the key is larger than the backend can work with.
    KeyTooLarge,
    /// The plaintext is longer than the key can carry.
    PlaintextTooLong {
        len: usize,
        max: usize,
    },
    /// The backend returned a block of another size than the modulus.
    BlockSize {
        written: usize,
        expected: usize,
    },
    /// The backend reported an error of its own.
    Backend(ErrorStack),
}

/// Why a configuration cannot be used.
#[derive(Debug, Clone, Copy, PartialEq, Eq, Structural)]
pub enum ConfigFault {
    /// The settings or the username list could not be read.
    Unreadable,
    /// The username list is empty.
    NoUsernames,
    /// The number of simultaneous connections is zero.
    NoConnections,
}

/// An error of the vote client.
#[derive(Debug)]
pub enum VoteError {
    /// A key or a payload could not be handled.
    Encryption(EncryptionFault),
    /// The network failed; the text says how.
    Io(String),
    /// The configuration cannot be used.
    Config(ConfigFault),
}

} // verus!
