use vstd::prelude::*;

use crate::auth_data::{AttestedCredentialData, AuthenticatorData};
use crate::authenticator::{auth_data_for, make_auth_data, Authenticator, Credential, ES256};
use crate::crypto::{
    KeyPair,
    cose_es256_key_of, cose_es256_public_key, generate_key_pair, p256_public_of, random_bytes,
};
use crate::extensions::{
    make_extensions, make_negotiation, signed_model, unsigned_model, ExtensionInputs, HmacSecretCredentials,
    UnsignedExtensionOutputs,
};
use crate::types::{copy_bytes, copy_id_list, ids_model, Ctap2Error, Options, UserFlags};

verus! {

/// A request to create a credential.
pub struct MakeCredentialRequest {
    pub rp_id: String,
    pub user_id: Vec<u8>,
    /// The COSE algorithm identifiers that the relying party accepts, in its order of
    /// preference.
    pub pub_key_cred_params: Vec<i64>,
    pub exclude_list: Option<Vec<Vec<u8>>>,
    pub extensions: Option<ExtensionInputs>,
    pub options: Options,
    pub pin_auth: Option<Vec<u8>>,
}

/// A created credential: the attestation format, its authenticator data, the attestation
/// statement and the unsigned extension outputs. No private key material is part of it.
pub struct MakeCredentialResponse {
    /// The attestation statement format: always "none".
    pub fmt: String,
    /// The CBOR encoding of the attestation statement: for "none", the empty map.
    pub att_stmt: Vec<u8>,
    pub auth_data: AuthenticatorData,
    pub unsigned_extension_outputs: Option<UnsignedExtensionOutputs>,
}

/// Where a creation stands.
pub enum McPhase {
    Start,
    AwaitUser,
    AwaitStoreInfo { flags: UserFlags },
    AwaitExclusion { flags: UserFlags },
    AwaitSave { response: MakeCredentialResponse },
    Done,
}

/// What the caller reports back after performing an action.
pub enum McEvent {
    Begin,
    /// The consent ceremony's flags, or its failure.
    UserChecked(Result<UserFlags, Ctap2Error>),
    /// Whether the store supports discoverable credentials.
    StoreInfo { discoverable: bool },
    /// How many credentials of the exclude list the store holds for the relying party.
    ExcludedFound(Result<usize, Ctap2Error>),
    Saved(Result<(), Ctap2Error>),
}

/// What the caller is to do next.
pub enum McAction {
    /// Run the consent ceremony, with no credential.
    CheckUser { options: Options },
    /// Ask the store whether it supports discoverable credentials.
    QueryStoreInfo,
    /// Look up these credential ids, bound to this relying party.
    FindExcluded { ids: Vec<Vec<u8>>, rp_id: String },
    /// Persist the new credential with the request's user, relying party and options.
    SaveCredential { credential: Credential },
    Respond(MakeCredentialResponse),
    Fail(Ctap2Error),
}

/// The decision that an event leads to.
pub enum McOutcome {
    AskUser,
    AskStoreInfo(UserFlags),
    AskExcluded(UserFlags),
    Create(UserFlags),
    Respond,
    Fail(Ctap2Error),
}

/// A creation in progress.
pub struct MakeCredential {
    pub authenticator: Authenticator,
    pub request: MakeCredentialRequest,
    pub phase: McPhase,
}

pub open spec fn exclude_list_nonempty(req: MakeCredentialRequest) -> bool {
    req.exclude_list matches Some(l) && l@.len() > 0
}

/// Once the options are accepted: the exclusion check where there is a list, else creation.
pub open spec fn after_options(req: MakeCredentialRequest, flags: UserFlags) -> McOutcome {
    if exclude_list_nonempty(req) {
        McOutcome::AskExcluded(flags)
    } else {
        McOutcome::Create(flags)
    }
}

/// The lookup of the exclude list's ids for the relying party.
pub open spec fn asks_excluded(
    req: MakeCredentialRequest,
    flags: UserFlags,
    phase: McPhase,
    action: McAction,
) -> bool {
    &&& phase == (McPhase::AwaitExclusion { flags })
    &&& match (action, req.exclude_list) {
        (McAction::FindExcluded { ids, rp_id }, Some(l)) => rp_id@ == req.rp_id@ && ids_model(ids)
            == ids_model(l),
        _ => false,
    }
}

/// What a new credential and its response hold, for every key and id that was drawn.
pub open spec fn created(
    auth: Authenticator,
    req: MakeCredentialRequest,
    flags: UserFlags,
    cred: Credential,
    resp: MakeCredentialResponse,
) -> bool {
    &&& cred@.rp_id == req.rp_id@
    &&& resp.fmt@ == seq!['n', 'o', 'n', 'e']
    &&& resp.att_stmt@ == seq![0xA0u8]
    &&& cred@.credential_id.len() == 16
    &&& cred@.key.len() == 32
    &&& cred@.user_handle == (if req.options.rk {
        Some(req.user_id@)
    } else {
        None
    })
    &&& cred@.counter == (if auth.make_credentials_with_signature_counter {
        Some(0u32)
    } else {
        None
    })
    &&& exists|fresh: HmacSecretCredentials|
        #[trigger] make_negotiation(auth.hmac_secret, req.extensions, req.options.uv, fresh) == (
        signed_model(resp.auth_data.extensions),
        unsigned_model(resp.unsigned_extension_outputs),
        cred@.hmac_secret,
    )
    &&& auth_data_for(req.rp_id@, flags, cred@.counter, resp.auth_data)
    &&& resp.auth_data.wf()
    &&& resp.auth_data.attested_credential_data matches Some(a) && a.aaguid == auth.aaguid
        && a.credential_id@ == cred@.credential_id && a.public_key@ == cose_es256_key_of(
        p256_public_of(cred@.key).0,
        p256_public_of(cred@.key).1,
    )
}

impl MakeCredential {
    pub fn new(authenticator: Authenticator, request: MakeCredentialRequest) -> (r: MakeCredential)
        ensures
            r.authenticator == authenticator,
            r.request == request,
            r.phase is Start,
    {
        MakeCredential { authenticator, request, phase: McPhase::Start }
    }

    /// Whether `event` answers the action of the current phase.
    pub open spec fn expects(&self, event: McEvent) -> bool {
        match (self.phase, event) {
            (McPhase::Start, McEvent::Begin) => true,
            (McPhase::AwaitUser, McEvent::UserChecked(_)) => true,
            (McPhase::AwaitStoreInfo { .. }, McEvent::StoreInfo { .. }) => true,
            (McPhase::AwaitExclusion { .. }, McEvent::ExcludedFound(_)) => true,
            (McPhase::AwaitSave { .. }, McEvent::Saved(_)) => true,
            _ => false,
        }
    }

    /// The decision of the procedure: presence is required, consent comes first, PIN auth and
    /// an unsupported resident key are refused before the store is touched, an excluded
    /// credential is reported only after consent, and the save is the last step that can fail.
    pub open spec fn outcome(&self, event: McEvent) -> McOutcome {
        let req = self.request;
        match (self.phase, event) {
            (McPhase::Start, McEvent::Begin) => if req.options.up {
                McOutcome::AskUser
            } else {
                McOutcome::Fail(Ctap2Error::InvalidOption)
            },
            (McPhase::AwaitUser, McEvent::UserChecked(Err(e))) => McOutcome::Fail(e),
            (McPhase::AwaitUser, McEvent::UserChecked(Ok(flags))) => if req.pin_auth is Some {
                McOutcome::Fail(Ctap2Error::UnsupportedOption)
            } else if req.options.rk {
                McOutcome::AskStoreInfo(flags)
            } else {
                after_options(req, flags)
            },
            (McPhase::AwaitStoreInfo { flags }, McEvent::StoreInfo { discoverable }) => if discoverable {
                after_options(req, flags)
            } else {
                McOutcome::Fail(Ctap2Error::UnsupportedOption)
            },
            (McPhase::AwaitExclusion { flags }, McEvent::ExcludedFound(Ok(n))) => if n > 0 {
                McOutcome::Fail(Ctap2Error::CredentialExcluded)
            } else {
                McOutcome::Create(flags)
            },
            (McPhase::AwaitExclusion { .. }, McEvent::ExcludedFound(Err(e))) => McOutcome::Fail(e),
            (McPhase::AwaitSave { .. }, McEvent::Saved(Ok(()))) => McOutcome::Respond,
            (McPhase::AwaitSave { .. }, McEvent::Saved(Err(e))) => McOutcome::Fail(e),
            _ => McOutcome::Fail(Ctap2Error::Other),
        }
    }

    /// How an outcome shows in the next phase and action.
    pub open spec fn step_spec(&self, event: McEvent, phase: McPhase, action: McAction) -> bool {
        let req = self.request;
        match self.outcome(event) {
            McOutcome::AskUser => phase is AwaitUser && action == (McAction::CheckUser {
                options: req.options,
            }),
            McOutcome::AskStoreInfo(flags) => phase == (McPhase::AwaitStoreInfo { flags })
                && action is QueryStoreInfo,
            McOutcome::AskExcluded(flags) => asks_excluded(req, flags, phase, action),
            McOutcome::Create(flags) => creation_spec(self.authenticator, req, flags, phase, action),
            McOutcome::Respond => match self.phase {
                McPhase::AwaitSave { response } => phase is Done && action == McAction::Respond(
                    response,
                ),
                _ => false,
            },
            McOutcome::Fail(e) => phase is Done && action == McAction::Fail(e),
        }
    }

    /// Advances the procedure by one event and says what to do next.
    pub fn step(self, event: McEvent) -> (r: (MakeCredential, McAction))
        requires
            self.expects(event),
        ensures
            r.0.authenticator == self.authenticator,
            r.0.request == self.request,
            self.step_spec(event, r.0.phase, r.1),
    {
        let MakeCredential { authenticator, request, phase } = self;
        let (phase, action) = match phase {
            McPhase::Start => {
                if request.options.up {
                    (McPhase::AwaitUser, McAction::CheckUser { options: request.options })
                } else {
                    (McPhase::Done, McAction::Fail(Ctap2Error::InvalidOption))
                }
            },
            McPhase::AwaitUser => {
                match event {
                    McEvent::UserChecked(Err(e)) => (McPhase::Done, McAction::Fail(e)),
                    McEvent::UserChecked(Ok(flags)) => {
                        if request.pin_auth.is_some() {
                            (McPhase::Done, McAction::Fail(Ctap2Error::UnsupportedOption))
                        } else if request.options.rk {
                            (McPhase::AwaitStoreInfo { flags }, McAction::QueryStoreInfo)
                        } else {
                            proceed(&authenticator, &request, flags)
                        }
                    },
                    _ => (McPhase::Done, McAction::Fail(Ctap2Error::Other)),
                }
            },
            McPhase::AwaitStoreInfo { flags } => {
                match event {
                    McEvent::StoreInfo { discoverable } => {
                        if discoverable {
                            proceed(&authenticator, &request, flags)
                        } else {
                            (McPhase::Done, McAction::Fail(Ctap2Error::UnsupportedOption))
                        }
                    },
                    _ => (McPhase::Done, McAction::Fail(Ctap2Error::Other)),
                }
            },
            McPhase::AwaitExclusion { flags } => {
                match event {
                    McEvent::ExcludedFound(Ok(n)) => {
                        if n > 0 {
                            (McPhase::Done, McAction::Fail(Ctap2Error::CredentialExcluded))
                        } else {
                            create(&authenticator, &request, flags)
                        }
                    },
                    McEvent::ExcludedFound(Err(e)) => (McPhase::Done, McAction::Fail(e)),
                    _ => (McPhase::Done, McAction::Fail(Ctap2Error::Other)),
                }
            },
            McPhase::AwaitSave { response } => {
                match event {
                    McEvent::Saved(Ok(())) => (McPhase::Done, McAction::Respond(response)),
                    McEvent::Saved(Err(e)) => (McPhase::Done, McAction::Fail(e)),
                    _ => (McPhase::Done, McAction::Fail(Ctap2Error::Other)),
                }
            },
            McPhase::Done => (McPhase::Done, McAction::Fail(Ctap2Error::Other)),
        };
        (MakeCredential { authenticator, request, phase }, action)
    }
}

/// The exclusion check where the request has a non-empty exclude list, else creation.
fn proceed(auth: &Authenticator, req: &MakeCredentialRequest, flags: UserFlags) -> (r: (
    McPhase,
    McAction,
))
    ensures
        exclude_list_nonempty(*req) ==> asks_excluded(*req, flags, r.0, r.1),
        !exclude_list_nonempty(*req) ==> creation_spec(*auth, *req, flags, r.0, r.1),
{
    match &req.exclude_list {
        Some(l) => {
            if l.len() > 0 {
                return (
                    McPhase::AwaitExclusion { flags },
                    McAction::FindExcluded { ids: copy_id_list(l), rp_id: req.rp_id.clone() },
                );
            }
        },
        None => {},
    }
    create(auth, req, flags)
}

pub open spec fn creation_spec(
    auth: Authenticator,
    req: MakeCredentialRequest,
    flags: UserFlags,
    phase: McPhase,
    action: McAction,
) -> bool {
    if !req.pub_key_cred_params@.contains(ES256) {
        phase is Done && action == McAction::Fail(Ctap2Error::UnsupportedAlgorithm)
    } else {
        match (phase, action) {
            (McPhase::AwaitSave { response }, McAction::SaveCredential { credential }) => created(
                auth,
                req,
                flags,
                credential,
                response,
            ),
            _ => false,
        }
    }
}

/// Chooses the algorithm, draws a credential id, a key pair and hmac-secret secrets, and
/// builds the credential and its response from them.
fn create(auth: &Authenticator, req: &MakeCredentialRequest, flags: UserFlags) -> (r: (
    McPhase,
    McAction,
))
    ensures
        creation_spec(*auth, *req, flags, r.0, r.1),
{
    if let Err(e) = auth.choose_algorithm(&req.pub_key_cred_params) {
        return (McPhase::Done, McAction::Fail(e));
    }
    let credential_id = random_bytes(16);
    let pair = generate_key_pair();
    let public_key = match &pair {
        Some(k) => cose_es256_public_key(&k.x, &k.y),
        None => None,
    };
    let fresh = HmacSecretCredentials {
        cred_with_uv: random_bytes(32),
        cred_without_uv: Some(random_bytes(32)),
    };
    let r = build_creation(auth, req, flags, credential_id, pair, public_key, fresh);
    r
}

/// What a new credential and its response hold, for the given drawn id, key pair, encoded
/// public key and secrets.
pub open spec fn built(
    auth: Authenticator,
    req: MakeCredentialRequest,
    flags: UserFlags,
    credential_id: Seq<u8>,
    pair: KeyPair,
    public_key: Seq<u8>,
    fresh: HmacSecretCredentials,
    cred: Credential,
    resp: MakeCredentialResponse,
) -> bool {
    &&& cred@.rp_id == req.rp_id@
    &&& resp.fmt@ == seq!['n', 'o', 'n', 'e']
    &&& resp.att_stmt@ == seq![0xA0u8]
    &&& cred@.credential_id == credential_id
    &&& cred@.key == pair.private@
    &&& cred@.user_handle == (if req.options.rk {
        Some(req.user_id@)
    } else {
        None
    })
    &&& cred@.counter == (if auth.make_credentials_with_signature_counter {
        Some(0u32)
    } else {
        None
    })
    &&& make_negotiation(auth.hmac_secret, req.extensions, req.options.uv, fresh) == (
        signed_model(resp.auth_data.extensions),
        unsigned_model(resp.unsigned_extension_outputs),
        cred@.hmac_secret,
    )
    &&& auth_data_for(req.rp_id@, flags, cred@.counter, resp.auth_data)
    &&& resp.auth_data.wf()
    &&& resp.auth_data.attested_credential_data matches Some(a) && a.aaguid == auth.aaguid
        && a.credential_id@ == credential_id && a.public_key@ == public_key
}

/// Builds the credential and the response of a creation from the drawn id, key pair and
/// secrets and the encoded public key. Without a key pair or its encoding, creation fails with
/// `Other`.
pub fn build_creation(
    auth: &Authenticator,
    req: &MakeCredentialRequest,
    flags: UserFlags,
    credential_id: Vec<u8>,
    pair: Option<KeyPair>,
    public_key: Option<Vec<u8>>,
    fresh: HmacSecretCredentials,
) -> (r: (McPhase, McAction))
    requires
        credential_id@.len() <= u16::MAX,
    ensures
        match (pair, public_key) {
            (Some(k), Some(pk)) => match (r.0, r.1) {
                (McPhase::AwaitSave { response }, McAction::SaveCredential { credential }) => built(
                    *auth,
                    *req,
                    flags,
                    credential_id@,
                    k,
                    pk@,
                    fresh,
                    credential,
                    response,
                ),
                _ => false,
            },
            _ => r.0 is Done && r.1 == McAction::Fail(Ctap2Error::Other),
        },
{
    let (pair, public_key) = match (pair, public_key) {
        (Some(k), Some(pk)) => (k, pk),
        _ => {
            return (McPhase::Done, McAction::Fail(Ctap2Error::Other));
        },
    };
    let ghost pair_model = pair;
    let ghost key_model = public_key@;
    let ext = make_extensions(&auth.hmac_secret, &req.extensions, req.options.uv, fresh);
    let counter = if auth.make_credentials_with_signature_counter {
        Some(0u32)
    } else {
        None
    };
    let attested = AttestedCredentialData {
        aaguid: auth.aaguid,
        credential_id: copy_bytes(&credential_id),
        public_key,
    };
    let auth_data = make_auth_data(&req.rp_id, flags, counter, Some(attested), ext.signed);
    let credential = Credential {
        key: pair.private,
        credential_id,
        rp_id: req.rp_id.clone(),
        user_handle: if req.options.rk {
            Some(copy_bytes(&req.user_id))
        } else {
            None
        },
        counter,
        hmac_secret: ext.credential,
    };
    let fmt: &str = "none";
    proof {
        reveal_strlit("none");
    }
    let response = MakeCredentialResponse {
        fmt: fmt.to_owned(),
        att_stmt: vec![0xA0u8],
        auth_data,
        unsigned_extension_outputs: ext.unsigned,
    };
    assert(response.fmt@ =~= seq!['n', 'o', 'n', 'e']);
    assert(response.att_stmt@ =~= seq![0xA0u8]);
    assert(built(*auth, *req, flags, credential@.credential_id, pair_model, key_model, fresh, credential, response));
    (McPhase::AwaitSave { response }, McAction::SaveCredential { credential })
}

} // verus!

verus! {

/// Whether an action asks something of the credential store.
pub open spec fn is_store_action(a: McAction) -> bool {
    a is QueryStoreInfo || a is FindExcluded || a is SaveCredential
}

/// Where the exclude list names credentials, no credential is saved but on an exclusion lookup
/// that found none of them, and a lookup that finds one of them ends the creation with
/// `CredentialExcluded`, saving nothing.
pub proof fn lemma_excluded_credential_blocks_creation(
    m: MakeCredential,
    event: McEvent,
    phase: McPhase,
    action: McAction,
)
    requires
        m.expects(event),
        m.step_spec(event, phase, action),
        exclude_list_nonempty(m.request),
    ensures
        action is SaveCredential ==> m.phase is AwaitExclusion
            && event == McEvent::ExcludedFound(Ok(0)),
        event matches McEvent::ExcludedFound(Ok(n)) ==> (m.phase is AwaitExclusion && n > 0 ==> (
        action == McAction::Fail(Ctap2Error::CredentialExcluded) && phase is Done)),
{
}

/// With the resident-key option, the store is first asked whether it supports discoverable
/// credentials; where it does not, creation fails with `UnsupportedOption`, and neither the
/// exclusion lookup nor the save is asked for.
pub proof fn lemma_unsupported_resident_key_touches_no_credential(
    m: MakeCredential,
    event: McEvent,
    phase: McPhase,
    action: McAction,
)
    requires
        m.expects(event),
        m.step_spec(event, phase, action),
        m.request.options.rk,
    ensures
        (m.phase is Start || m.phase is AwaitUser) ==> !(action is FindExcluded)
            && !(action is SaveCredential),
        event matches McEvent::StoreInfo { discoverable } ==> (m.phase is AwaitStoreInfo
            && !discoverable ==> action == McAction::Fail(Ctap2Error::UnsupportedOption)
            && phase is Done),
{
}

/// A request with PIN auth asks at most for consent and then fails with `UnsupportedOption`:
/// the store is never asked anything.
pub proof fn lemma_pin_auth_fails_before_store(
    m: MakeCredential,
    event: McEvent,
    phase: McPhase,
    action: McAction,
)
    requires
        m.expects(event),
        m.step_spec(event, phase, action),
        m.request.pin_auth is Some,
        m.phase is Start || m.phase is AwaitUser,
    ensures
        !is_store_action(action),
        phase is AwaitUser || phase is Done,
        (m.phase is AwaitUser && event matches McEvent::UserChecked(Ok(_))) ==> action
            == McAction::Fail(Ctap2Error::UnsupportedOption),
{
}

} // verus!
