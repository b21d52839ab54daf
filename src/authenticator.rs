use vstd::prelude::*;
use vstd::utf8::encode_utf8;

use crate::auth_data::{AttestedCredentialData, AuthenticatorData, SignedExtensionOutputs};
use crate::crypto::{sha256, sha256_of};
use crate::extensions::{secrets_model, HmacSecretConfig, HmacSecretCredentials};
use crate::types::{copy_bytes, copy_opt_bytes, flags_byte, flags_byte_spec, opt_bytes, UserFlags};
use crate::types::Ctap2Error;

verus! {

/// The COSE identifier of ES256 (ECDSA on P-256 with SHA-256), the one algorithm supported.
pub const ES256: i64 = -7;

/// A credential bound to one relying party.
pub struct Credential {
    /// The private scalar of the credential's P-256 key, 32 big-endian bytes.
    pub key: Vec<u8>,
    pub credential_id: Vec<u8>,
    pub rp_id: String,
    /// Present only for a discoverable credential.
    pub user_handle: Option<Vec<u8>>,
    pub counter: Option<u32>,
    pub hmac_secret: Option<HmacSecretCredentials>,
}

/// A credential as values.
pub struct CredentialModel {
    pub key: Seq<u8>,
    pub credential_id: Seq<u8>,
    pub rp_id: Seq<char>,
    pub user_handle: Option<Seq<u8>>,
    pub counter: Option<u32>,
    pub hmac_secret: Option<(Seq<u8>, Option<Seq<u8>>)>,
}

impl View for Credential {
    type V = CredentialModel;

    open spec fn view(&self) -> CredentialModel {
        CredentialModel {
            key: self.key@,
            credential_id: self.credential_id@,
            rp_id: self.rp_id@,
            user_handle: opt_bytes(self.user_handle),
            counter: self.counter,
            hmac_secret: match self.hmac_secret {
                Some(c) => Some(secrets_model(c)),
                None => None,
            },
        }
    }
}

impl Credential {
    /// A copy of the credential.
    pub fn duplicate(&self) -> (r: Credential)
        ensures
            r@ == self@,
    {
        Credential {
            key: copy_bytes(&self.key),
            credential_id: copy_bytes(&self.credential_id),
            rp_id: self.rp_id.clone(),
            user_handle: copy_opt_bytes(&self.user_handle),
            counter: self.counter,
            hmac_secret: match &self.hmac_secret {
                Some(c) => Some(
                    HmacSecretCredentials {
                        cred_with_uv: copy_bytes(&c.cred_with_uv),
                        cred_without_uv: copy_opt_bytes(&c.cred_without_uv),
                    },
                ),
                None => None,
            },
        }
    }
}

/// The authenticator's own settings: its identity, whether new credentials get a signature
/// counter, and the extensions it offers.
pub struct Authenticator {
    pub aaguid: [u8; 16],
    pub make_credentials_with_signature_counter: bool,
    pub hmac_secret: Option<HmacSecretConfig>,
}

impl Authenticator {
    /// An authenticator with the given identity, no counters on new credentials and no
    /// extensions.
    pub fn new(aaguid: [u8; 16]) -> (r: Authenticator)
        ensures
            r.aaguid == aaguid,
            !r.make_credentials_with_signature_counter,
            r.hmac_secret is None,
    {
        Authenticator { aaguid, make_credentials_with_signature_counter: false, hmac_secret: None }
    }

    /// Whether credentials created from now on start with a signature counter of zero.
    pub fn set_make_credentials_with_signature_counter(&mut self, enabled: bool)
        ensures
            final(self).make_credentials_with_signature_counter == enabled,
            final(self).aaguid == old(self).aaguid,
            final(self).hmac_secret == old(self).hmac_secret,
    {
        self.make_credentials_with_signature_counter = enabled;
    }

    /// The same authenticator, offering hmac-secret (and so PRF) with this configuration.
    pub fn hmac_secret(self, config: HmacSecretConfig) -> (r: Authenticator)
        ensures
            r.hmac_secret == Some(config),
            r.aaguid == self.aaguid,
            r.make_credentials_with_signature_counter
                == self.make_credentials_with_signature_counter,
    {
        Authenticator { hmac_secret: Some(config), ..self }
    }

    pub fn aaguid(&self) -> (r: &[u8; 16])
        ensures
            *r == self.aaguid,
    {
        &self.aaguid
    }

    /// The algorithm for a new credential: the first offered one that is supported.
    pub fn choose_algorithm(&self, offered: &Vec<i64>) -> (r: Result<i64, Ctap2Error>)
        ensures
            offered@.contains(ES256) ==> r == Ok::<i64, Ctap2Error>(ES256),
            !offered@.contains(ES256) ==> r == Err::<i64, Ctap2Error>(
                Ctap2Error::UnsupportedAlgorithm,
            ),
    {
        let mut i: usize = 0;
        while i < offered.len()
            invariant
                i <= offered@.len(),
                forall|j: int| 0 <= j < i ==> offered@[j] != ES256,
            decreases offered@.len() - i,
        {
            if offered[i] == ES256 {
                assert(offered@[i as int] == ES256);
                return Ok(ES256);
            }
            i = i + 1;
        }
        Err(Ctap2Error::UnsupportedAlgorithm)
    }
}

/// Authenticator data for a relying party, as the operations assemble it.
pub open spec fn auth_data_for(
    rp_id: Seq<char>,
    flags: UserFlags,
    counter: Option<u32>,
    a: AuthenticatorData,
) -> bool {
    &&& a.rp_id_hash@ == sha256_of(encode_utf8(rp_id))
    &&& a.flags == flags_byte_spec(
        flags,
        a.attested_credential_data is Some,
        a.extensions is Some,
    )
    &&& a.counter == counter
}

/// Assembles authenticator data: the hash of the relying party id, the flags, the counter, the
/// attested credential and the signed extension outputs, if any.
pub fn make_auth_data(
    rp_id: &String,
    flags: UserFlags,
    counter: Option<u32>,
    attested: Option<AttestedCredentialData>,
    extensions: Option<SignedExtensionOutputs>,
) -> (r: AuthenticatorData)
    ensures
        auth_data_for(rp_id@, flags, counter, r),
        r.attested_credential_data == attested,
        r.extensions == extensions,
{
    let rp_id_hash = sha256(rp_id.as_str().as_bytes());
    let f = flags_byte(flags, attested.is_some(), extensions.is_some());
    AuthenticatorData {
        rp_id_hash,
        flags: f,
        counter,
        attested_credential_data: attested,
        extensions,
    }
}

} // verus!
