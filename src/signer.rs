//! Payloads handed to the signer: verification context, the encrypted account
//! key, and the registration request with the checks and derivation context
//! that registration applies to it.
use vstd::prelude::*;
use crate::authenticator::{AuthenticatorOptions, ConfigurationError, options_check};
use crate::encoding::{frame_str, frameable, lemma_frame_str_split, push_frame_str};
use crate::vrf::VRFChallengeData;

verus! {

/// Context for verifying a signed operation.
#[derive(Clone, Debug)]
pub struct VerificationPayload {
    pub contract_id: String,
    pub near_rpc_url: String,
    pub vrf_challenge: Option<VRFChallengeData>,
}

/// An account private key at rest: ciphertext and the nonce it was sealed with.
#[derive(Clone, Debug)]
pub struct DecryptionPayload {
    pub encrypted_private_key_data: String,
    pub encrypted_private_key_iv: String,
}

/// What registration needs to derive and register an account key.
#[derive(Clone, Debug)]
pub struct RegistrationPayload {
    pub near_account_id: String,
    pub nonce: String,
    pub block_hash: String,
    pub deterministic_vrf_public_key: Option<String>,
    pub device_number: Option<u8>,
    pub authenticator_options: Option<AuthenticatorOptions>,
}

/// Why a registration was refused.
#[derive(Clone, Copy, Debug, PartialEq, Eq, Structural)]
pub enum RegistrationError {
    /// The authenticator options' origin policy sets no field or several.
    AuthenticatorPolicyError(ConfigurationError),
}

/// The device a registration derives for; the first device when none is named.
pub open spec fn device_of(p: RegistrationPayload) -> u8 {
    match p.device_number {
        Some(n) => n,
        None => 1,
    }
}

/// The outcome of checking a registration payload.
pub open spec fn registration_check(p: RegistrationPayload) -> Result<(), RegistrationError> {
    match p.authenticator_options {
        Some(o) => match options_check(o) {
            Ok(()) => Ok(()),
            Err(e) => Err(RegistrationError::AuthenticatorPolicyError(e)),
        },
        None => Ok(()),
    }
}

/// The bytes that key derivation is bound to: the account id, framed by its
/// length, then the device number.
pub open spec fn derivation_context(p: RegistrationPayload) -> Seq<u8> {
    frame_str(p.near_account_id@) + seq![device_of(p)]
}

impl DecryptionPayload {
    pub fn new(encrypted_private_key_data: String, encrypted_private_key_iv: String) -> (r:
        DecryptionPayload)
        ensures
            r.encrypted_private_key_data == encrypted_private_key_data,
            r.encrypted_private_key_iv == encrypted_private_key_iv,
    {
        DecryptionPayload { encrypted_private_key_data, encrypted_private_key_iv }
    }
}

impl RegistrationPayload {
    /// The device number, the first device when none is named.
    pub fn device(&self) -> (r: u8)
        ensures
            r == device_of(*self),
    {
        match self.device_number {
            Some(n) => n,
            None => 1,
        }
    }

    /// Checks the authenticator options before any key material is touched.
    pub fn validate(&self) -> (r: Result<(), RegistrationError>)
        ensures
            r == registration_check(*self),
    {
        match &self.authenticator_options {
            Some(o) => match o.validate() {
                Ok(()) => Ok(()),
                Err(e) => Err(RegistrationError::AuthenticatorPolicyError(e)),
            },
            None => Ok(()),
        }
    }

    /// The bytes that key derivation for this account and device is bound to.
    pub fn derivation_context(&self) -> (r: Vec<u8>)
        ensures
            r@ == derivation_context(*self),
    {
        let mut out: Vec<u8> = Vec::new();
        push_frame_str(&mut out, self.near_account_id.as_str());
        out.push(self.device());
        assert(out@ =~= derivation_context(*self));
        out
    }
}

/// Derivation contexts tell registrations apart: two registrations share one
/// only when they name the same account and the same device. In particular
/// two devices of one account derive from different contexts.
pub proof fn lemma_derivation_context_injective(a: RegistrationPayload, b: RegistrationPayload)
    requires
        frameable(a.near_account_id@),
        frameable(b.near_account_id@),
        derivation_context(a) == derivation_context(b),
    ensures
        a.near_account_id@ == b.near_account_id@,
        device_of(a) == device_of(b),
{
    lemma_frame_str_split(a.near_account_id@, seq![device_of(a)], b.near_account_id@, seq![device_of(b)]);
    assert(seq![device_of(a)][0] == seq![device_of(b)][0]);
}

} // verus!
