use vstd::prelude::*;

use crate::auth_data::SignedExtensionOutputs;
use crate::crypto::{hmac_sha256, hmac_sha256_of};
use crate::types::{copy_bytes, copy_opt_bytes, opt_bytes};

verus! {

/// How this authenticator offers the hmac-secret extension, which backs WebAuthn's PRF.
#[derive(Clone, Copy, Debug, PartialEq, Eq, Structural)]
pub struct HmacSecretConfig {
    /// Each credential keeps one secret only, usable after user verification.
    pub uv_only: bool,
    /// Salts handed to the creation of a credential are evaluated at once.
    pub on_make_credential: bool,
}

impl HmacSecretConfig {
    /// A configuration in which secrets serve verified users only.
    pub fn new_with_uv_only() -> (r: HmacSecretConfig)
        ensures
            r == (HmacSecretConfig { uv_only: true, on_make_credential: false }),
    {
        HmacSecretConfig { uv_only: true, on_make_credential: false }
    }

    /// A configuration in which each credential also keeps a secret for unverified use.
    pub fn new_without_uv() -> (r: HmacSecretConfig)
        ensures
            r == (HmacSecretConfig { uv_only: false, on_make_credential: false }),
    {
        HmacSecretConfig { uv_only: false, on_make_credential: false }
    }

    /// The same configuration, evaluating salts on creation too.
    pub fn enable_on_make_credential(self) -> (r: HmacSecretConfig)
        ensures
            r == (HmacSecretConfig { on_make_credential: true, ..self }),
    {
        HmacSecretConfig { on_make_credential: true, ..self }
    }
}

/// One or two salts to evaluate, or the one or two results of an evaluation.
pub struct PrfValues {
    pub first: Vec<u8>,
    pub second: Option<Vec<u8>>,
}

/// The PRF input of a request.
pub struct PrfInputs {
    pub eval: Option<PrfValues>,
}

/// The extension inputs of a request that this authenticator understands.
pub struct ExtensionInputs {
    pub prf: Option<PrfInputs>,
    /// CTAP's hmac-secret input on creation: whether the credential is to get a secret.
    pub hmac_secret: Option<bool>,
}

/// The PRF output: whether the extension is enabled for the credential, and the evaluation.
pub struct PrfOutputs {
    pub enabled: bool,
    pub results: Option<PrfValues>,
}

/// Extension outputs returned beside the signature, not covered by it.
pub struct UnsignedExtensionOutputs {
    pub prf: Option<PrfOutputs>,
}

/// The secrets that hmac-secret stores with a credential.
pub struct HmacSecretCredentials {
    pub cred_with_uv: Vec<u8>,
    pub cred_without_uv: Option<Vec<u8>>,
}

/// What negotiation on creation yields: the signed and the unsigned payloads and what the
/// credential stores.
pub struct MakeExtensionOutputs {
    pub signed: Option<SignedExtensionOutputs>,
    pub unsigned: Option<UnsignedExtensionOutputs>,
    pub credential: Option<HmacSecretCredentials>,
}

/// The two results of an evaluation, as byte strings.
pub type PrfResultModel = (Seq<u8>, Option<Seq<u8>>);

pub open spec fn prf_requested(inputs: Option<ExtensionInputs>) -> bool {
    inputs matches Some(e) && e.prf is Some
}

pub open spec fn hmac_secret_requested(inputs: Option<ExtensionInputs>) -> bool {
    inputs matches Some(e) && e.hmac_secret == Some(true)
}

/// The model of a signed payload: absent, or the hmac-secret acknowledgement it carries.
pub open spec fn signed_model(s: Option<SignedExtensionOutputs>) -> Option<Option<bool>> {
    match s {
        Some(o) => Some(o.hmac_secret),
        None => None,
    }
}

pub open spec fn salts_of(inputs: Option<ExtensionInputs>) -> Option<PrfValues> {
    match inputs {
        Some(e) => match e.prf {
            Some(p) => p.eval,
            None => None,
        },
        None => None,
    }
}

pub open spec fn secrets_model(c: HmacSecretCredentials) -> (Seq<u8>, Option<Seq<u8>>) {
    (c.cred_with_uv@, opt_bytes(c.cred_without_uv))
}

/// Evaluating salts under a credential's secrets: the secret for the verification state, and
/// the second salt only where the credential also keeps a secret for unverified use. Without a
/// secret for the verification state, no result.
pub open spec fn evaluation(
    secrets: (Seq<u8>, Option<Seq<u8>>),
    salts: PrfValues,
    uv: bool,
) -> Option<PrfResultModel> {
    let secret = if uv {
        Some(secrets.0)
    } else {
        secrets.1
    };
    match secret {
        Some(s) => Some(
            (
                hmac_sha256_of(s, salts.first@),
                match (salts.second, secrets.1) {
                    (Some(t), Some(_)) => Some(hmac_sha256_of(s, t@)),
                    _ => None,
                },
            ),
        ),
        None => None,
    }
}

pub open spec fn results_model(r: Option<PrfValues>) -> Option<PrfResultModel> {
    match r {
        Some(v) => Some((v.first@, opt_bytes(v.second))),
        None => None,
    }
}

/// The model of an unsigned payload: absent, or the PRF's `enabled` and its results.
pub open spec fn unsigned_model(u: Option<UnsignedExtensionOutputs>) -> Option<
    Option<(bool, Option<PrfResultModel>)>,
> {
    match u {
        Some(o) => Some(
            match o.prf {
                Some(p) => Some((p.enabled, results_model(p.results))),
                None => None,
            },
        ),
        None => None,
    }
}

fn evaluate(secrets: &HmacSecretCredentials, salts: &PrfValues, uv: bool) -> (r: Option<PrfValues>)
    ensures
        results_model(r) == evaluation(secrets_model(*secrets), *salts, uv),
{
    let secret: Option<&Vec<u8>> = if uv {
        Some(&secrets.cred_with_uv)
    } else {
        match &secrets.cred_without_uv {
            Some(s) => Some(s),
            None => None,
        }
    };
    match secret {
        Some(s) => {
            let first = hmac_sha256(s.as_slice(), salts.first.as_slice());
            let second = match (&salts.second, &secrets.cred_without_uv) {
                (Some(t), Some(_)) => Some(hmac_sha256(s.as_slice(), t.as_slice())),
                _ => None,
            };
            Some(PrfValues { first, second })
        },
        None => None,
    }
}

fn copy_secrets(c: &HmacSecretCredentials) -> (r: HmacSecretCredentials)
    ensures
        secrets_model(r) == secrets_model(*c),
{
    HmacSecretCredentials {
        cred_with_uv: copy_bytes(&c.cred_with_uv),
        cred_without_uv: copy_opt_bytes(&c.cred_without_uv),
    }
}

/// The secrets a new credential keeps, drawn from fresh random values.
pub open spec fn kept_secrets(config: HmacSecretConfig, fresh: HmacSecretCredentials) -> (
    Seq<u8>,
    Option<Seq<u8>>,
) {
    (fresh.cred_with_uv@, if config.uv_only {
        None
    } else {
        opt_bytes(fresh.cred_without_uv)
    })
}

/// What a negotiation on creation yields, over models: the signed payload, the unsigned
/// payload and the stored secrets.
pub type MakeNegotiationModel = (
    Option<Option<bool>>,
    Option<Option<(bool, Option<PrfResultModel>)>>,
    Option<(Seq<u8>, Option<Seq<u8>>)>,
);

/// The outcome of negotiation on creation. hmac-secret, where configured, acknowledges its own
/// input in the signed payload and answers PRF in the unsigned one; the credential keeps
/// secrets where either was requested.
pub open spec fn make_negotiation(
    config: Option<HmacSecretConfig>,
    inputs: Option<ExtensionInputs>,
    uv: bool,
    fresh: HmacSecretCredentials,
) -> MakeNegotiationModel {
    match config {
        Some(cfg) => {
            let kept = kept_secrets(cfg, fresh);
            let results = match salts_of(inputs) {
                Some(salts) => if cfg.on_make_credential {
                    evaluation(kept, salts, uv)
                } else {
                    None
                },
                None => None,
            };
            (
                if hmac_secret_requested(inputs) {
                    Some(Some(true))
                } else {
                    None
                },
                if prf_requested(inputs) {
                    Some(Some((true, results)))
                } else {
                    None
                },
                if prf_requested(inputs) || hmac_secret_requested(inputs) {
                    Some(kept)
                } else {
                    None
                },
            )
        },
        None => (None, None, None),
    }
}

pub open spec fn make_outputs_model(o: MakeExtensionOutputs) -> MakeNegotiationModel {
    (
        signed_model(o.signed),
        unsigned_model(o.unsigned),
        match o.credential {
            Some(c) => Some(secrets_model(c)),
            None => None,
        },
    )
}

/// Negotiates the extensions of a credential about to be created. `fresh` holds random secrets
/// drawn for it; they are kept only where hmac-secret is configured and requested, directly or
/// through PRF.
pub fn make_extensions(
    config: &Option<HmacSecretConfig>,
    inputs: &Option<ExtensionInputs>,
    uv: bool,
    fresh: HmacSecretCredentials,
) -> (r: MakeExtensionOutputs)
    ensures
        make_outputs_model(r) == make_negotiation(*config, *inputs, uv, fresh),
{
    let cfg = match config {
        Some(c) => *c,
        None => {
            return MakeExtensionOutputs { signed: None, unsigned: None, credential: None };
        },
    };
    let (prf, hs) = match inputs {
        Some(e) => (
            match &e.prf {
                Some(p) => Some(p),
                None => None,
            },
            match e.hmac_secret {
                Some(b) => b,
                None => false,
            },
        ),
        None => (None, false),
    };
    if prf.is_none() && !hs {
        return MakeExtensionOutputs { signed: None, unsigned: None, credential: None };
    }
    let kept = HmacSecretCredentials {
        cred_with_uv: fresh.cred_with_uv,
        cred_without_uv: if cfg.uv_only {
            None
        } else {
            fresh.cred_without_uv
        },
    };
    let unsigned = match prf {
        Some(p) => {
            let results = match &p.eval {
                Some(salts) => if cfg.on_make_credential {
                    evaluate(&kept, salts, uv)
                } else {
                    None
                },
                None => None,
            };
            Some(UnsignedExtensionOutputs { prf: Some(PrfOutputs { enabled: true, results }) })
        },
        None => None,
    };
    let signed = if hs {
        Some(SignedExtensionOutputs { hmac_secret: Some(true) })
    } else {
        None
    };
    MakeExtensionOutputs { signed, unsigned, credential: Some(kept) }
}

/// The unsigned payload of an assertion, over models.
pub open spec fn assertion_negotiation(
    config: Option<HmacSecretConfig>,
    secrets: Option<(Seq<u8>, Option<Seq<u8>>)>,
    inputs: Option<ExtensionInputs>,
    uv: bool,
) -> Option<Option<(bool, Option<PrfResultModel>)>> {
    match (config, secrets) {
        (Some(_), Some(s)) => if prf_requested(inputs) {
            let results = match salts_of(inputs) {
                Some(salts) => evaluation(s, salts, uv),
                None => None,
            };
            Some(Some((true, results)))
        } else {
            None
        },
        _ => None,
    }
}

/// Negotiates the extensions of an assertion with the credential's stored secrets.
pub fn assertion_extensions(
    config: &Option<HmacSecretConfig>,
    secrets: &Option<HmacSecretCredentials>,
    inputs: &Option<ExtensionInputs>,
    uv: bool,
) -> (r: Option<UnsignedExtensionOutputs>)
    ensures
        unsigned_model(r) == assertion_negotiation(
            *config,
            match *secrets {
                Some(c) => Some(secrets_model(c)),
                None => None,
            },
            *inputs,
            uv,
        ),
{
    if config.is_none() {
        return None;
    }
    let s = match secrets {
        Some(s) => s,
        None => {
            return None;
        },
    };
    let prf = match inputs {
        Some(e) => match &e.prf {
            Some(p) => p,
            None => {
                return None;
            },
        },
        None => {
            return None;
        },
    };
    let results = match &prf.eval {
        Some(salts) => evaluate(s, salts, uv),
        None => None,
    };
    Some(UnsignedExtensionOutputs { prf: Some(PrfOutputs { enabled: true, results }) })
}

/// Negotiation is total and asks for nothing: where hmac-secret is not configured or neither it
/// nor PRF was requested, both operations yield no payload, signed or unsigned, and creation
/// stores no secret.
pub proof fn lemma_unrequested_extension_yields_nothing(
    config: Option<HmacSecretConfig>,
    secrets: Option<(Seq<u8>, Option<Seq<u8>>)>,
    inputs: Option<ExtensionInputs>,
    uv: bool,
    fresh: HmacSecretCredentials,
)
    requires
        config is None || (!prf_requested(inputs) && !hmac_secret_requested(inputs)),
    ensures
        make_negotiation(config, inputs, uv, fresh) == (
            None::<Option<bool>>,
            None::<Option<(bool, Option<PrfResultModel>)>>,
            None::<(Seq<u8>, Option<Seq<u8>>)>,
        ),
        assertion_negotiation(config, secrets, inputs, uv) is None,
{
}

} // verus!
