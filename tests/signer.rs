use passkey::authenticator::{AuthenticatorOptions, ConfigurationError, OriginPolicyInput};
use passkey::signer::{DecryptionPayload, RegistrationError, RegistrationPayload};

fn registration(device: Option<u8>) -> RegistrationPayload {
    RegistrationPayload {
        near_account_id: "alice.near".to_string(),
        nonce: "7".to_string(),
        block_hash: "abc".to_string(),
        deterministic_vrf_public_key: None,
        device_number: device,
        authenticator_options: None,
    }
}

#[test]
fn decryption_payload_keeps_fields() {
    let p = DecryptionPayload::new("cipher".to_string(), "iv".to_string());
    assert_eq!(p.encrypted_private_key_data, "cipher");
    assert_eq!(p.encrypted_private_key_iv, "iv");
}

#[test]
fn two_devices_derive_from_different_contexts() {
    let one = registration(Some(1)).derivation_context();
    let two = registration(Some(2)).derivation_context();
    assert_ne!(one, two);
    let mut expected = vec![0, 0, 0, 0, 0, 0, 0, 10];
    expected.extend_from_slice(b"alice.near");
    expected.push(2);
    assert_eq!(two, expected);
}

#[test]
fn unnamed_device_is_first_device() {
    assert_eq!(registration(None).device(), 1);
    assert_eq!(registration(None).derivation_context(), registration(Some(1)).derivation_context());
}

#[test]
fn registration_with_ambiguous_policy_refused() {
    let mut p = registration(Some(1));
    p.authenticator_options = Some(AuthenticatorOptions {
        user_verification: None,
        origin_policy: Some(OriginPolicyInput {
            single: Some(true),
            all_subdomains: Some(true),
            multiple: None,
        }),
    });
    assert_eq!(
        p.validate(),
        Err(RegistrationError::AuthenticatorPolicyError(ConfigurationError::AmbiguousOriginPolicy))
    );
}

#[test]
fn registration_with_empty_policy_refused() {
    let mut p = registration(Some(1));
    p.authenticator_options = Some(AuthenticatorOptions {
        user_verification: None,
        origin_policy: Some(OriginPolicyInput { single: None, all_subdomains: None, multiple: None }),
    });
    assert_eq!(
        p.validate(),
        Err(RegistrationError::AuthenticatorPolicyError(ConfigurationError::MissingOriginPolicy))
    );
}

#[test]
fn registration_with_default_options_accepted() {
    let mut p = registration(None);
    assert_eq!(p.validate(), Ok(()));
    p.authenticator_options = Some(AuthenticatorOptions::default());
    assert_eq!(p.validate(), Ok(()));
}
