//! PKCS#1 v1.5 encryption under one RSA public key, parsed once.

use crate::error::EncryptionFault;
use crate::error::VoteError;
use crate::pem::format_pem;
use crate::pem::pem_text;
use openssl::error::ErrorStack;
use openssl::pkey::Public;
use openssl::rsa::Padding;
use openssl::rsa::Rsa;
use vstd::prelude::*;
use vstd::utf8::encode_utf8;
use vstd::utf8::is_ascii_chars;

verus! {

#[verifier::external_type_specification]
#[verifier::external_body]
#[verifier::reject_recursive_types(T)]
pub struct ExRsa<T>(openssl::rsa::Rsa<T>);

#[verifier::external_type_specification]
#[verifier::external_body]
pub struct ExPublic(openssl::pkey::Public);

#[verifier::external_type_specification]
#[verifier::external_body]
pub struct ExErrorStack(openssl::error::ErrorStack);

/// Bytes of every block that PKCS#1 v1.5 padding takes for itself.
pub const PKCS1_OVERHEAD: usize = 11;

/// Largest input, in bytes, that the backend reads in one call.
pub const BACKEND_MAX_LEN: usize = 0x7fff_ffff;

/// The longest plaintext that fits under a modulus of `modulus_bytes` bytes.
pub open spec fn max_plaintext(modulus_bytes: usize) -> usize {
    if modulus_bytes >= PKCS1_OVERHEAD {
        (modulus_bytes - PKCS1_OVERHEAD) as usize
    } else {
        0
    }
}

/// The size in bytes of the modulus of a key: the number that `Rsa::size`
/// returns for it. It depends on the key alone.
pub uninterp spec fn modulus_of(key: Rsa<Public>) -> usize;

/// Calls `Rsa::public_key_from_pem` on the armored key. Nothing is claimed
/// of the result: the backend alone decides whether the text is a key. The
/// length bound keeps clear of the backend's own assertion on its input.
#[verifier::external_body]
fn parse_public_key(pem: &[u8]) -> (parsed: Result<Rsa<Public>, ErrorStack>)
    requires
        pem@.len() <= BACKEND_MAX_LEN,
{
    Rsa::public_key_from_pem(pem)
}

/// Calls `Rsa::size`, which reads the size of the modulus off the key. The
/// result is that size: the same for the same key, whenever it is asked.
#[verifier::external_body]
fn modulus_size(key: &Rsa<Public>) -> (size: usize)
    ensures
        size == modulus_of(*key),
{
    key.size() as usize
}

/// Calls `Rsa::public_encrypt` with PKCS#1 v1.5 padding, writing into
/// `block`, and returns the number of bytes that the backend reports as
/// written. Nothing is claimed of that number nor of what the block holds
/// afterwards: the padding is random and the backend may fail. The two
/// bounds are the backend's own assertions: on the length of its input, and
/// that the block is at least as long as the modulus of the key.
#[verifier::external_body]
fn public_encrypt(key: &Rsa<Public>, plaintext: &[u8], block: &mut Vec<u8>) -> (written: Result<
    usize,
    ErrorStack,
>)
    requires
        plaintext@.len() <= BACKEND_MAX_LEN,
        old(block)@.len() >= modulus_of(*key),
{
    key.public_encrypt(plaintext, block.as_mut_slice(), Padding::PKCS1)
}

/// One parsed public key, and the size of its modulus.
pub struct Encryptor {
    key: Rsa<Public>,
    modulus_bytes: usize,
}

/// What `seal_block` returns for a block and the backend's report on it,
/// with the ciphertext as a sequence of bytes.
pub open spec fn sealed(
    modulus_bytes: usize,
    block: Seq<u8>,
    written: Result<usize, ErrorStack>,
) -> Result<Seq<u8>, EncryptionFault> {
    match written {
        Ok(n) => if n == modulus_bytes && n <= block.len() {
            Ok(block.subrange(0, n as int))
        } else {
            Err(EncryptionFault::BlockSize { written: n, expected: modulus_bytes })
        },
        Err(stack) => Err(EncryptionFault::Backend(stack)),
    }
}

/// Whether `result` is the ciphertext or the fault that `expected` names.
pub open spec fn agrees(
    result: Result<Vec<u8>, VoteError>,
    expected: Result<Seq<u8>, EncryptionFault>,
) -> bool {
    match expected {
        Ok(bytes) => result matches Ok(v) && v@ == bytes,
        Err(fault) => result matches Err(VoteError::Encryption(f)) && f == fault,
    }
}

/// Turns the block that the backend wrote, and its report on it, into the
/// ciphertext.
///
/// The ciphertext is the written part of the block, and it is accepted only
/// if it is exactly as long as the modulus. A backend error is passed on as
/// an encryption error.
pub fn seal_block(modulus_bytes: usize, block: Vec<u8>, written: Result<usize, ErrorStack>) -> (result:
    Result<Vec<u8>, VoteError>)
    ensures
        agrees(result, sealed(modulus_bytes, block@, written)),
{
    match written {
        Ok(n) => {
            if n == modulus_bytes && n <= block.len() {
                let mut block = block;
                block.truncate(n);
                Ok(block)
            } else {
                Err(
                    VoteError::Encryption(
                        EncryptionFault::BlockSize { written: n, expected: modulus_bytes },
                    ),
                )
            }
        },
        Err(stack) => Err(VoteError::Encryption(EncryptionFault::Backend(stack))),
    }
}

/// Whether a key body can be armored and handed to the backend: it is ASCII
/// text, and its armored form is not longer than the backend reads.
pub open spec fn body_is_readable(body: Seq<char>) -> bool {
    &&& is_ascii_chars(body)
    &&& encode_utf8(pem_text(body)).len() <= BACKEND_MAX_LEN
}

/// Whether `result` is what `Encryptor::admit_key` makes of `parsed`.
///
/// A parse error is passed on. A parsed key is kept, with the size of its
/// modulus, unless that size is more than the backend can later be handed
/// in one call: exactly then the key is refused as too large.
pub open spec fn admitted(
    parsed: Result<Rsa<Public>, ErrorStack>,
    result: Result<Encryptor, VoteError>,
) -> bool {
    match parsed {
        Ok(key) => if modulus_of(key) > BACKEND_MAX_LEN {
            result matches Err(VoteError::Encryption(EncryptionFault::KeyTooLarge))
        } else {
            &&& result matches Ok(enc)
            &&& enc.key() == key
            &&& enc.modulus_bytes() == modulus_of(key)
        },
        Err(stack) => result matches Err(VoteError::Encryption(EncryptionFault::Backend(s)))
            && s == stack,
    }
}

/// Whether `result` is what `Encryptor::from_key_body` may return for
/// `body`.
///
/// A body with a character outside ASCII is refused as no text, and an
/// ASCII body whose armored form is too long as too long. For every other
/// body the result is what `admit_key` makes of some verdict of the backend
/// on the armored body.
pub open spec fn key_verdict(body: Seq<char>, result: Result<Encryptor, VoteError>) -> bool {
    if !is_ascii_chars(body) {
        result matches Err(VoteError::Encryption(EncryptionFault::KeyNotText))
    } else if encode_utf8(pem_text(body)).len() > BACKEND_MAX_LEN {
        result matches Err(VoteError::Encryption(EncryptionFault::KeyTooLong))
    } else {
        exists|parsed: Result<Rsa<Public>, ErrorStack>| #[trigger] admitted(parsed, result)
    }
}

impl Encryptor {
    #[verifier::type_invariant]
    spec fn inv(self) -> bool {
        &&& self.modulus_bytes == modulus_of(self.key)
        &&& self.modulus_bytes <= BACKEND_MAX_LEN
    }

    /// The size of the key's modulus in bytes, as kept beside the key. It
    /// is always `modulus_of` of the key, as every function that hands out
    /// an `Encryptor` states.
    pub closed spec fn modulus_bytes(self) -> usize {
        self.modulus_bytes
    }

    /// The parsed key.
    pub closed spec fn key(self) -> Rsa<Public> {
        self.key
    }

    /// Takes what the backend made of an armored key.
    ///
    /// A parse error is passed on as an encryption error. A parsed key is
    /// kept together with the size of its modulus; it is refused exactly if
    /// that size is more than the backend can later be handed in one call.
    pub fn admit_key(parsed: Result<Rsa<Public>, ErrorStack>) -> (result: Result<
        Encryptor,
        VoteError,
    >)
        ensures
            admitted(parsed, result),
            result matches Ok(enc) ==> enc.modulus_bytes() == modulus_of(enc.key())
                && enc.modulus_bytes() <= BACKEND_MAX_LEN,
    {
        match parsed {
            Ok(key) => {
                let size = modulus_size(&key);
                if size > BACKEND_MAX_LEN {
                    Err(VoteError::Encryption(EncryptionFault::KeyTooLarge))
                } else {
                    Ok(Encryptor { key, modulus_bytes: size })
                }
            },
            Err(stack) => Err(VoteError::Encryption(EncryptionFault::Backend(stack))),
        }
    }

    /// Parses a bare base64 key body.
    ///
    /// A body with a character outside ASCII is refused at once, and so is
    /// one whose armored form is too long for the backend. Any other body is
    /// armored and handed to the backend, and the result is what
    /// `admit_key` makes of the backend's verdict. Every failure is an
    /// encryption error.
    pub fn from_key_body(body: &str) -> (result: Result<Encryptor, VoteError>)
        ensures
            key_verdict(body@, result),
            result matches Ok(enc) ==> enc.modulus_bytes() == modulus_of(enc.key())
                && enc.modulus_bytes() <= BACKEND_MAX_LEN,
            result matches Err(e) ==> e is Encryption,
    {
        if !body.is_ascii() {
            return Err(VoteError::Encryption(EncryptionFault::KeyNotText));
        }
        let pem = format_pem(body);
        let bytes = pem.as_str().as_bytes();
        if bytes.len() > BACKEND_MAX_LEN {
            return Err(VoteError::Encryption(EncryptionFault::KeyTooLong));
        }
        let parsed = parse_public_key(bytes);
        let result = Encryptor::admit_key(parsed);
        assert(admitted(parsed, result));
        result
    }

    /// The size of the key's modulus in bytes.
    pub fn key_modulus_bytes(&self) -> (n: usize)
        ensures
            n == self.modulus_bytes(),
            n == modulus_of(self.key()),
            n <= BACKEND_MAX_LEN,
    {
        proof {
            use_type_invariant(self);
        }
        self.modulus_bytes
    }

    /// The longest plaintext that `encrypt` takes.
    pub fn max_plaintext_len(&self) -> (n: usize)
        ensures
            n == max_plaintext(self.modulus_bytes()),
    {
        if self.modulus_bytes >= PKCS1_OVERHEAD {
            self.modulus_bytes - PKCS1_OVERHEAD
        } else {
            0
        }
    }

    /// Encrypts one plaintext with PKCS#1 v1.5 padding.
    ///
    /// A plaintext that leaves less than `PKCS1_OVERHEAD` bytes of the
    /// modulus for the padding is refused without a call to the backend.
    /// Any other is handed to the backend with a block as long as the
    /// modulus, and `seal_block` turns what comes back into the result: a
    /// ciphertext is always exactly as long as the modulus, and every
    /// failure is an encryption error.
    pub fn encrypt(&self, plaintext: &[u8]) -> (result: Result<Vec<u8>, VoteError>)
        ensures
            plaintext@.len() + PKCS1_OVERHEAD > self.modulus_bytes() ==> agrees(
                result,
                Err(
                    EncryptionFault::PlaintextTooLong {
                        len: plaintext@.len() as usize,
                        max: max_plaintext(self.modulus_bytes()),
                    },
                ),
            ),
            plaintext@.len() + PKCS1_OVERHEAD <= self.modulus_bytes() ==> exists|
                block: Seq<u8>,
                written: Result<usize, ErrorStack>,
            | #[trigger] agrees(result, sealed(self.modulus_bytes(), block, written)),
            result matches Ok(ciphertext) ==> ciphertext@.len() == self.modulus_bytes(),
            result matches Err(e) ==> e is Encryption,
    {
        proof {
            use_type_invariant(self);
        }
        let max = self.max_plaintext_len();
        if plaintext.len() > max || self.modulus_bytes < PKCS1_OVERHEAD {
            return Err(
                VoteError::Encryption(
                    EncryptionFault::PlaintextTooLong { len: plaintext.len(), max },
                ),
            );
        }
        let mut block: Vec<u8> = vec![0u8; self.modulus_bytes];
        let written = public_encrypt(&self.key, plaintext, &mut block);
        let ghost filled = block@;
        let result = seal_block(self.modulus_bytes, block, written);
        assert(agrees(result, sealed(self.modulus_bytes(), filled, written)));
        result
    }
}

} // verus!
