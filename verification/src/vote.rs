//! One attempt, up to the wire: pick a username, build the payload, encrypt
//! it.

use crate::config::Config;
use crate::crypto::body_is_readable;
use crate::crypto::key_verdict;
use crate::crypto::modulus_of;
use crate::crypto::Encryptor;
use crate::crypto::BACKEND_MAX_LEN;
use crate::crypto::PKCS1_OVERHEAD;
use crate::error::ConfigFault;
use crate::error::VoteError;
use crate::payload::build;
use crate::payload::payload_bytes;
use crate::selector::slot_of;
use crate::selector::UsernamePool;
use crate::stats::Outcome;
use crate::transport::Endpoint;
use vstd::prelude::*;
use vstd::utf8::encode_utf8;

verus! {

/// What every attempt of a run shares: the key, the remote address, the
/// site identifier and the usernames. It is made once and only read
/// afterwards.
pub struct VoteContext {
    /// The parsed key of the remote listener.
    pub encryptor: Encryptor,
    /// The resolved address of the remote listener.
    pub addr: Endpoint,
    /// The site identifier.
    pub site: String,
    /// The usernames; never empty.
    pub usernames: UsernamePool,
}

/// What is to be done with an attempt after its payload went to the
/// encryptor.
#[derive(Debug)]
pub enum VoteStep {
    /// The ciphertext is ready: send it in one connection.
    Transmit { ciphertext: Vec<u8> },
    /// The attempt is over.
    Finished { outcome: Outcome },
}

/// The step that follows an encryption result.
pub open spec fn step_after(encrypted: Result<Vec<u8>, VoteError>, step: VoteStep) -> bool {
    match encrypted {
        Ok(ciphertext) => step matches VoteStep::Transmit { ciphertext: c } && c == ciphertext,
        Err(_) => step == (VoteStep::Finished { outcome: Outcome::EncryptionFailed }),
    }
}

/// Decides how an attempt goes on after encryption: a ciphertext is to be
/// transmitted as it is, and any error ends the attempt as failed.
pub fn step_after_encryption(encrypted: Result<Vec<u8>, VoteError>) -> (step: VoteStep)
    ensures
        step_after(encrypted, step),
{
    match encrypted {
        Ok(ciphertext) => VoteStep::Transmit { ciphertext },
        Err(_) => VoteStep::Finished { outcome: Outcome::EncryptionFailed },
    }
}

/// What `process_vote` may return for a payload of `payload_len` bytes under
/// a modulus of `modulus_bytes` bytes.
pub open spec fn step_fits(payload_len: nat, modulus_bytes: usize, step: VoteStep) -> bool {
    match step {
        VoteStep::Transmit { ciphertext } => {
            &&& payload_len + PKCS1_OVERHEAD <= modulus_bytes
            &&& ciphertext@.len() == modulus_bytes
        },
        VoteStep::Finished { outcome } => outcome == Outcome::EncryptionFailed,
    }
}

/// Whether `result` is the context that follows from a verdict on the key.
///
/// A key that was refused gives its error, whatever the usernames are. With
/// a key, an empty username list is refused; otherwise the context holds
/// the key, the site identifier, the usernames in their order with the
/// cursor at zero, and the address.
pub open spec fn context_from(
    verdict: Result<Encryptor, VoteError>,
    site: String,
    usernames: Seq<String>,
    addr: Endpoint,
    result: Result<VoteContext, VoteError>,
) -> bool {
    match verdict {
        Ok(encryptor) => if usernames.len() == 0 {
            result matches Err(VoteError::Config(ConfigFault::NoUsernames))
        } else {
            &&& result matches Ok(ctx)
            &&& ctx.encryptor == encryptor
            &&& ctx.site == site
            &&& ctx.addr == addr
            &&& ctx.usernames.names() == usernames
            &&& ctx.usernames.cursor() == 0
        },
        Err(e) => result matches Err(refusal) && refusal == e,
    }
}

impl VoteContext {
    /// The payload of an attempt with the cursor value `ticket` and the
    /// given nonce.
    pub open spec fn payload(self, ticket: usize, nonce: u32) -> Seq<u8> {
        payload_bytes(
            encode_utf8(self.site@),
            nonce,
            encode_utf8(
                self.usernames.names()[slot_of(ticket, self.usernames.names().len())]@,
            ),
        )
    }

    /// Puts a context together from the verdict on the key, the site
    /// identifier, the usernames and the resolved address.
    pub fn assemble(
        verdict: Result<Encryptor, VoteError>,
        site: String,
        usernames: Vec<String>,
        addr: Endpoint,
    ) -> (result: Result<VoteContext, VoteError>)
        ensures
            context_from(verdict, site, usernames@, addr, result),
    {
        match verdict {
            Ok(encryptor) => match UsernamePool::new(usernames) {
                Some(pool) => Ok(VoteContext { encryptor, addr, site, usernames: pool }),
                None => Err(VoteError::Config(ConfigFault::NoUsernames)),
            },
            Err(e) => Err(e),
        }
    }

    /// Makes the context of a run from its settings, the usernames and the
    /// resolved address of the remote listener.
    ///
    /// The key is parsed first, by `Encryptor::from_key_body`, and
    /// `assemble` does the rest. A refused key is an encryption error even
    /// if the username list is empty as well; an empty list is a
    /// configuration error only after the key was admitted.
    pub fn new(config: Config, usernames: Vec<String>, addr: Endpoint) -> (result: Result<
        VoteContext,
        VoteError,
    >)
        ensures
            exists|verdict: Result<Encryptor, VoteError>|
                key_verdict(config.votifier_key@, verdict) && #[trigger] context_from(
                    verdict,
                    config.site_name,
                    usernames@,
                    addr,
                    result,
                ),
            match result {
                Ok(ctx) => {
                    &&& body_is_readable(config.votifier_key@)
                    &&& usernames@.len() > 0
                    &&& ctx.encryptor.modulus_bytes() == modulus_of(ctx.encryptor.key())
                    &&& ctx.encryptor.modulus_bytes() <= BACKEND_MAX_LEN
                },
                Err(VoteError::Config(fault)) => {
                    &&& fault == ConfigFault::NoUsernames
                    &&& usernames@.len() == 0
                    &&& body_is_readable(config.votifier_key@)
                },
                Err(VoteError::Encryption(_)) => true,
                Err(VoteError::Io(_)) => false,
            },
    {
        let verdict = Encryptor::from_key_body(config.votifier_key.as_str());
        let result = VoteContext::assemble(verdict, config.site_name, usernames, addr);
        assert(context_from(verdict, config.site_name, usernames@, addr, result));
        result
    }

    /// The size in bytes of every ciphertext that `process_vote` hands out.
    pub fn ciphertext_len(&self) -> (n: usize)
        ensures
            n == self.encryptor.modulus_bytes(),
    {
        self.encryptor.key_modulus_bytes()
    }
}

/// Runs one attempt up to the wire.
///
/// The username is the one that the cursor value `ticket` selects; the
/// payload is built for it with a fresh nonce and encrypted. The attempt
/// goes on to transmission with a ciphertext as long as the modulus, or
/// ends as failed if the encryption failed. It always fails if the payload
/// is too long for the key.
pub fn process_vote(ctx: &VoteContext, ticket: usize) -> (step: VoteStep)
    ensures
        exists|nonce: u32|
            step_fits(
                (#[trigger] ctx.payload(ticket, nonce)).len(),
                ctx.encryptor.modulus_bytes(),
                step,
            ),
{
    let username = ctx.usernames.select(ticket);
    let payload = build(ctx.site.as_str(), username.as_str());
    let encrypted = ctx.encryptor.encrypt(payload.as_slice());
    let step = step_after_encryption(encrypted);
    proof {
        let site = encode_utf8(ctx.site@);
        let name = encode_utf8(username@);
        let nonce = choose|nonce: u32| payload@ == #[trigger] payload_bytes(site, nonce, name);
        assert(ctx.payload(ticket, nonce) == payload@);
        assert(step_fits(
            ctx.payload(ticket, nonce).len(),
            ctx.encryptor.modulus_bytes(),
            step,
        ));
    }
    step
}

} // verus!
