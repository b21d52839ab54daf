use hmac::Mac;
use sha2::Digest;
use passkey_authenticator::authenticator::{Authenticator, Credential, ES256};
use passkey_authenticator::extensions::{
    ExtensionInputs, HmacSecretConfig, PrfInputs, PrfValues,
};
use passkey_authenticator::make_credential::{
    MakeCredential, MakeCredentialRequest, MakeCredentialResponse, McAction, McEvent,
};
use passkey_authenticator::types::{Ctap2Error, Options, UserFlags};

const RSAES_OAEP_SHA_256: i64 = -41;

struct Store {
    creds: Vec<Credential>,
    discoverable: bool,
    /// A store whose lookups and writes must never be reached.
    forbid_access: bool,
}

impl Store {
    fn new() -> Store {
        Store { creds: Vec::new(), discoverable: true, forbid_access: false }
    }
}

fn verified_user() -> Result<UserFlags, Ctap2Error> {
    Ok(UserFlags { up: true, uv: true })
}

fn run(
    authenticator: Authenticator,
    request: MakeCredentialRequest,
    store: &mut Store,
    consent: Result<UserFlags, Ctap2Error>,
    log: &mut Vec<&'static str>,
) -> Result<MakeCredentialResponse, Ctap2Error> {
    let mut flow = MakeCredential::new(authenticator, request);
    let mut event = McEvent::Begin;
    loop {
        let (next, action) = flow.step(event);
        flow = next;
        event = match action {
            McAction::CheckUser { .. } => {
                log.push("check_user");
                McEvent::UserChecked(consent)
            }
            McAction::QueryStoreInfo => {
                log.push("store_info");
                McEvent::StoreInfo { discoverable: store.discoverable }
            }
            McAction::FindExcluded { ids, .. } => {
                log.push("find");
                assert!(!store.forbid_access, "The test should not call find_credentials");
                let n = store.creds.iter().filter(|c| ids.contains(&c.credential_id)).count();
                McEvent::ExcludedFound(Ok(n))
            }
            McAction::SaveCredential { credential } => {
                log.push("save");
                assert!(!store.forbid_access, "The test should not call save_credential");
                store.creds.push(credential);
                McEvent::Saved(Ok(()))
            }
            McAction::Respond(r) => return Ok(r),
            McAction::Fail(e) => return Err(e),
        };
    }
}

fn good_request() -> MakeCredentialRequest {
    MakeCredentialRequest {
        rp_id: "future.1password.com".to_string(),
        user_id: vec![7u8; 16],
        pub_key_cred_params: vec![ES256],
        exclude_list: None,
        extensions: None,
        options: Options { rk: true, up: true, uv: true },
        pin_auth: None,
    }
}

fn prf_request(eval: Option<PrfValues>) -> Option<ExtensionInputs> {
    Some(ExtensionInputs { prf: Some(PrfInputs { eval }), hmac_secret: None })
}

fn make(
    authenticator: Authenticator,
    request: MakeCredentialRequest,
    store: &mut Store,
) -> MakeCredentialResponse {
    let mut log = Vec::new();
    match run(authenticator, request, store, verified_user(), &mut log) {
        Ok(r) => r,
        Err(e) => panic!("error happened while trying to make a new credential: {:?}", e),
    }
}

fn make_err(
    authenticator: Authenticator,
    request: MakeCredentialRequest,
    store: &mut Store,
    log: &mut Vec<&'static str>,
) -> Ctap2Error {
    match run(authenticator, request, store, verified_user(), log) {
        Ok(_) => panic!("make credential succeeded where it should have failed"),
        Err(e) => e,
    }
}

#[test]
fn assert_storage_on_success() {
    let mut store = Store::new();
    make(Authenticator::new([0u8; 16]), good_request(), &mut store);
    assert_eq!(store.creds.len(), 1);
}

#[test]
fn assert_excluded_credentials() {
    let cred_id = vec![3u8; 16];
    let request = MakeCredentialRequest {
        exclude_list: Some(vec![cred_id.clone()]),
        ..good_request()
    };
    let mut store = Store::new();
    store.creds.push(Credential {
        key: Vec::new(),
        credential_id: cred_id.clone(),
        rp_id: "".to_string(),
        user_handle: Some(request.user_id.clone()),
        counter: None,
        hmac_secret: None,
    });
    let mut log = Vec::new();
    let err = make_err(Authenticator::new([0u8; 16]), request, &mut store, &mut log);
    assert_eq!(err, Ctap2Error::CredentialExcluded);
    assert_eq!(store.creds.len(), 1);
    assert_eq!(log, vec!["check_user", "store_info", "find"]);
}

#[test]
fn assert_unsupported_algorithm() {
    let request = MakeCredentialRequest {
        pub_key_cred_params: vec![RSAES_OAEP_SHA_256],
        ..good_request()
    };
    let mut log = Vec::new();
    let err = make_err(Authenticator::new([0u8; 16]), request, &mut Store::new(), &mut log);
    assert_eq!(err, Ctap2Error::UnsupportedAlgorithm);
}

#[test]
fn make_credential_counter_is_some_0_when_counters_are_enabled() {
    let mut authenticator = Authenticator::new([0u8; 16]);
    authenticator.set_make_credentials_with_signature_counter(true);
    let mut store = Store::new();
    let response = make(authenticator, good_request(), &mut store);
    assert_eq!(store.creds[0].counter.unwrap(), 0);
    assert_eq!(response.auth_data.counter, Some(0));
}

#[test]
fn counter_is_absent_when_counters_are_disabled() {
    let mut store = Store::new();
    let response = make(Authenticator::new([0u8; 16]), good_request(), &mut store);
    assert_eq!(store.creds[0].counter, None);
    assert_eq!(response.auth_data.counter, None);
}

#[test]
fn unsupported_extension_with_request_gives_no_ext_output() {
    let request = MakeCredentialRequest { extensions: prf_request(None), ..good_request() };
    let mut store = Store::new();
    let res = make(Authenticator::new([0u8; 16]), request, &mut store);
    assert_eq!(res.auth_data.flags & 0x80, 0);
    assert!(res.unsigned_extension_outputs.is_none());
    assert!(store.creds[0].hmac_secret.is_none());
}

#[test]
fn unsupported_extension_with_empty_request_gives_no_ext_output() {
    let request = MakeCredentialRequest {
        extensions: Some(ExtensionInputs { prf: None, hmac_secret: None }),
        ..good_request()
    };
    let res = make(Authenticator::new([0u8; 16]), request, &mut Store::new());
    assert_eq!(res.auth_data.flags & 0x80, 0);
    assert!(res.unsigned_extension_outputs.is_none());
}

#[test]
fn supported_extension_with_empty_request_gives_no_ext_output() {
    let authenticator =
        Authenticator::new([0u8; 16]).hmac_secret(HmacSecretConfig::new_with_uv_only());
    let request = MakeCredentialRequest {
        extensions: Some(ExtensionInputs { prf: None, hmac_secret: None }),
        ..good_request()
    };
    let res = make(authenticator, request, &mut Store::new());
    assert_eq!(res.auth_data.flags & 0x80, 0);
    assert!(res.unsigned_extension_outputs.is_none());
}

#[test]
fn supported_extension_without_extension_request_gives_no_ext_output() {
    let authenticator =
        Authenticator::new([0u8; 16]).hmac_secret(HmacSecretConfig::new_with_uv_only());
    let res = make(authenticator, good_request(), &mut Store::new());
    assert_eq!(res.auth_data.flags & 0x80, 0);
    assert!(res.unsigned_extension_outputs.is_none());
}

#[test]
fn supported_extension_with_request_gives_output() {
    let authenticator =
        Authenticator::new([0u8; 16]).hmac_secret(HmacSecretConfig::new_with_uv_only());
    let request = MakeCredentialRequest { extensions: prf_request(None), ..good_request() };
    let mut store = Store::new();
    let res = make(authenticator, request, &mut store);
    assert_eq!(res.auth_data.flags & 0x80, 0);
    assert!(res.unsigned_extension_outputs.is_some());
    let exts = res.unsigned_extension_outputs.unwrap();
    assert!(exts.prf.is_some());
    let prf = exts.prf.unwrap();
    assert!(prf.enabled);
    assert!(prf.results.is_none());
    let secrets = store.creds[0].hmac_secret.as_ref().unwrap();
    assert_eq!(secrets.cred_with_uv.len(), 32);
    assert!(secrets.cred_without_uv.is_none());
}

#[test]
fn hmac_secret_mc_happy_path() {
    let authenticator = Authenticator::new([0u8; 16])
        .hmac_secret(HmacSecretConfig::new_with_uv_only().enable_on_make_credential());
    let salt = vec![5u8; 32];
    let request = MakeCredentialRequest {
        extensions: prf_request(Some(PrfValues {
            first: salt.clone(),
            second: Some(vec![6u8; 32]),
        })),
        ..good_request()
    };
    let mut store = Store::new();
    let res = make(authenticator, request, &mut store);
    assert_eq!(res.auth_data.flags & 0x80, 0);
    assert!(res.unsigned_extension_outputs.is_some());
    let exts = res.unsigned_extension_outputs.unwrap();
    assert!(exts.prf.is_some());
    let prf = exts.prf.unwrap();
    assert!(prf.enabled);
    assert!(prf.results.is_some());
    let values = prf.results.unwrap();
    assert!(!values.first.is_empty());
    // A uv-only authenticator keeps no second secret, so the second salt is skipped.
    assert!(values.second.is_none());
    let secret = &store.creds[0].hmac_secret.as_ref().unwrap().cred_with_uv;
    let mut mac = hmac::Hmac::<sha2::Sha256>::new_from_slice(secret).unwrap();
    mac.update(&salt);
    assert_eq!(values.first, mac.finalize().into_bytes().to_vec());
}

#[test]
fn hmac_secret_mc_evaluates_both_salts_without_uv_only() {
    let authenticator = Authenticator::new([0u8; 16])
        .hmac_secret(HmacSecretConfig::new_without_uv().enable_on_make_credential());
    let request = MakeCredentialRequest {
        extensions: prf_request(Some(PrfValues {
            first: vec![1u8; 32],
            second: Some(vec![2u8; 32]),
        })),
        ..good_request()
    };
    let res = make(authenticator, request, &mut Store::new());
    let values = res.unsigned_extension_outputs.unwrap().prf.unwrap().results.unwrap();
    assert_eq!(values.first.len(), 32);
    assert_eq!(values.second.unwrap().len(), 32);
}

#[test]
fn hmac_secret_mc_without_hmac_secret_support() {
    let authenticator =
        Authenticator::new([0u8; 16]).hmac_secret(HmacSecretConfig::new_with_uv_only());
    let request = MakeCredentialRequest {
        extensions: prf_request(Some(PrfValues { first: vec![9u8; 32], second: None })),
        ..good_request()
    };
    let res = make(authenticator, request, &mut Store::new());
    assert_eq!(res.auth_data.flags & 0x80, 0);
    assert!(res.unsigned_extension_outputs.is_some());
    let exts = res.unsigned_extension_outputs.unwrap();
    assert!(exts.prf.is_some());
    let prf = exts.prf.unwrap();
    assert!(prf.enabled);
    assert!(prf.results.is_none());
}

#[test]
fn make_credential_returns_err_when_rk_is_requested_but_not_supported() {
    let mut store = Store { creds: Vec::new(), discoverable: false, forbid_access: true };
    let mut authenticator = Authenticator::new([0u8; 16]);
    authenticator.set_make_credentials_with_signature_counter(true);
    let mut log = Vec::new();
    let err = make_err(authenticator, good_request(), &mut store, &mut log);
    assert_eq!(err, Ctap2Error::UnsupportedOption);
    assert_eq!(log, vec!["check_user", "store_info"]);
}

#[test]
fn unsupported_resident_key_skips_exclusion_lookup() {
    let request = MakeCredentialRequest {
        exclude_list: Some(vec![vec![1u8; 16]]),
        ..good_request()
    };
    let mut store = Store { creds: Vec::new(), discoverable: false, forbid_access: true };
    let mut log = Vec::new();
    let err = make_err(Authenticator::new([0u8; 16]), request, &mut store, &mut log);
    assert_eq!(err, Ctap2Error::UnsupportedOption);
    assert_eq!(log, vec!["check_user", "store_info"]);
}

#[test]
fn pin_auth_fails_before_store_on_creation() {
    let request = MakeCredentialRequest { pin_auth: Some(vec![1u8; 16]), ..good_request() };
    let mut store = Store { creds: Vec::new(), discoverable: true, forbid_access: true };
    let mut log = Vec::new();
    let err = make_err(Authenticator::new([0u8; 16]), request, &mut store, &mut log);
    assert_eq!(err, Ctap2Error::UnsupportedOption);
    assert_eq!(log, vec!["check_user"]);
}

#[test]
fn presence_not_requested_is_invalid_option() {
    let request = MakeCredentialRequest {
        options: Options { rk: false, up: false, uv: false },
        ..good_request()
    };
    let mut log = Vec::new();
    let err = make_err(Authenticator::new([0u8; 16]), request, &mut Store::new(), &mut log);
    assert_eq!(err, Ctap2Error::InvalidOption);
    assert!(log.is_empty());
}

#[test]
fn consent_denied_on_creation_saves_nothing() {
    let mut store = Store::new();
    let mut log = Vec::new();
    let res = run(
        Authenticator::new([0u8; 16]),
        good_request(),
        &mut store,
        Err(Ctap2Error::OperationDenied),
        &mut log,
    );
    assert_eq!(res.err(), Some(Ctap2Error::OperationDenied));
    assert!(store.creds.is_empty());
}

#[test]
fn excluded_id_not_in_store_does_not_block() {
    let request = MakeCredentialRequest {
        exclude_list: Some(vec![vec![4u8; 16]]),
        options: Options { rk: false, up: true, uv: true },
        ..good_request()
    };
    let mut store = Store::new();
    let res = make(Authenticator::new([0u8; 16]), request, &mut store);
    assert_eq!(store.creds.len(), 1);
    assert!(store.creds[0].user_handle.is_none());
    assert!(res.auth_data.attested_credential_data.is_some());
}

#[test]
fn created_credential_is_bound_and_attested() {
    let aaguid = [9u8; 16];
    let mut store = Store::new();
    let res = make(Authenticator::new(aaguid), good_request(), &mut store);
    let cred = &store.creds[0];
    assert_eq!(cred.rp_id, "future.1password.com");
    assert_eq!(cred.credential_id.len(), 16);
    assert_eq!(cred.key.len(), 32);
    assert_eq!(cred.user_handle, Some(vec![7u8; 16]));
    let acd = res.auth_data.attested_credential_data.as_ref().unwrap();
    assert_eq!(acd.aaguid, aaguid);
    assert_eq!(acd.credential_id, cred.credential_id);
    let bytes = res.auth_data.to_vec();
    // hash, flags, counter, aaguid, id length, id, key
    assert_eq!(&bytes[37..53], &aaguid);
    assert_eq!(&bytes[53..55], &[0u8, 16]);
    assert_eq!(&bytes[55..71], cred.credential_id.as_slice());
    // up, uv, backup eligible, backed up, attested
    assert_eq!(bytes[32], 0x01 | 0x04 | 0x08 | 0x10 | 0x40);
    assert_eq!(res.auth_data.rp_id_hash, sha2::Sha256::digest(b"future.1password.com").to_vec());
}

#[test]
fn build_creation_uses_the_given_key_material() {
    let authenticator = Authenticator::new([1u8; 16]);
    let pair = passkey_authenticator::crypto::KeyPair {
        private: vec![1u8; 32],
        x: vec![2u8; 32],
        y: vec![3u8; 32],
    };
    let fresh = passkey_authenticator::extensions::HmacSecretCredentials {
        cred_with_uv: vec![4u8; 32],
        cred_without_uv: None,
    };
    let flags = UserFlags { up: true, uv: false };
    let (_, action) = passkey_authenticator::make_credential::build_creation(
        &authenticator,
        &good_request(),
        flags,
        vec![5u8; 16],
        Some(pair),
        Some(vec![6u8; 10]),
        fresh,
    );
    match action {
        McAction::SaveCredential { credential } => {
            assert_eq!(credential.key, vec![1u8; 32]);
            assert_eq!(credential.credential_id, vec![5u8; 16]);
            assert!(credential.hmac_secret.is_none());
        }
        _ => panic!("expected a credential to save"),
    }
    let fresh = passkey_authenticator::extensions::HmacSecretCredentials {
        cred_with_uv: vec![4u8; 32],
        cred_without_uv: None,
    };
    let (_, action) = passkey_authenticator::make_credential::build_creation(
        &authenticator,
        &good_request(),
        flags,
        vec![5u8; 16],
        None,
        Some(vec![6u8; 10]),
        fresh,
    );
    assert!(matches!(action, McAction::Fail(Ctap2Error::Other)));
}

#[test]
fn exclusion_lookup_error_passes_through() {
    let request = MakeCredentialRequest {
        exclude_list: Some(vec![vec![1u8; 16]]),
        options: Options { rk: false, up: true, uv: true },
        ..good_request()
    };
    let mut flow = MakeCredential::new(Authenticator::new([0u8; 16]), request);
    let mut event = McEvent::Begin;
    let mut saved = false;
    let result = loop {
        let (next, action) = flow.step(event);
        flow = next;
        event = match action {
            McAction::CheckUser { .. } => McEvent::UserChecked(verified_user()),
            McAction::QueryStoreInfo => McEvent::StoreInfo { discoverable: true },
            McAction::FindExcluded { .. } => McEvent::ExcludedFound(Err(Ctap2Error::Other)),
            McAction::SaveCredential { .. } => {
                saved = true;
                McEvent::Saved(Ok(()))
            }
            McAction::Respond(_) => break None,
            McAction::Fail(e) => break Some(e),
        };
    };
    assert_eq!(result, Some(Ctap2Error::Other));
    assert!(!saved);
}

#[test]
fn hmac_secret_input_is_acknowledged_in_signed_extensions() {
    let authenticator =
        Authenticator::new([0u8; 16]).hmac_secret(HmacSecretConfig::new_with_uv_only());
    let request = MakeCredentialRequest {
        extensions: Some(ExtensionInputs { prf: None, hmac_secret: Some(true) }),
        ..good_request()
    };
    let mut store = Store::new();
    let res = make(authenticator, request, &mut store);
    assert_eq!(res.auth_data.flags & 0x80, 0x80);
    assert_eq!(res.auth_data.extensions.as_ref().unwrap().hmac_secret, Some(true));
    assert!(res.unsigned_extension_outputs.is_none());
    assert!(store.creds[0].hmac_secret.is_some());
    let bytes = res.auth_data.to_vec();
    let mut tail = vec![0xA1u8, 0x6B];
    tail.extend_from_slice(b"hmac-secret");
    tail.push(0xF5);
    assert!(bytes.ends_with(&tail));
}

#[test]
fn hmac_secret_input_without_configuration_gives_nothing() {
    let request = MakeCredentialRequest {
        extensions: Some(ExtensionInputs { prf: None, hmac_secret: Some(true) }),
        ..good_request()
    };
    let mut store = Store::new();
    let res = make(Authenticator::new([0u8; 16]), request, &mut store);
    assert_eq!(res.auth_data.flags & 0x80, 0);
    assert!(res.auth_data.extensions.is_none());
    assert!(store.creds[0].hmac_secret.is_none());
}

#[test]
fn creation_response_uses_none_attestation() {
    let res = make(Authenticator::new([0u8; 16]), good_request(), &mut Store::new());
    assert_eq!(res.fmt, "none");
    assert_eq!(res.att_stmt, vec![0xA0u8]);
}
