use vstd::prelude::*;
use vstd::utf8::encode_utf8;

use crate::auth_data::{append_bytes, be32, counter_value, AuthenticatorData};
use crate::authenticator::{auth_data_for, make_auth_data, Authenticator, Credential, CredentialModel};
use crate::crypto::{es256_sign, es256_signature_of, es256_signs, sha256_of};
use crate::extensions::{
    assertion_extensions, assertion_negotiation, unsigned_model, ExtensionInputs,
    UnsignedExtensionOutputs,
};
use crate::make_credential::{created, MakeCredentialRequest, MakeCredentialResponse};
use crate::types::{flags_byte_spec, copy_id_list, ids_model, opt_bytes, Ctap2Error, Options, UserFlags};

verus! {

/// A request for an assertion.
pub struct GetAssertionRequest {
    pub rp_id: String,
    pub client_data_hash: Vec<u8>,
    pub allow_list: Option<Vec<Vec<u8>>>,
    pub extensions: Option<ExtensionInputs>,
    pub options: Options,
    pub pin_auth: Option<Vec<u8>>,
}

/// An assertion. The number of credentials is never given, so that it cannot reveal how many
/// accounts exist.
pub struct GetAssertionResponse {
    pub credential_id: Vec<u8>,
    pub auth_data: AuthenticatorData,
    pub signature: Vec<u8>,
    pub user_handle: Option<Vec<u8>>,
    pub number_of_credentials: Option<u32>,
    pub unsigned_extension_outputs: Option<UnsignedExtensionOutputs>,
}

/// Where an assertion stands.
pub enum GaPhase {
    Start,
    AwaitCredentials,
    /// The located credential, or why there is none.
    AwaitUser { found: Result<Credential, Ctap2Error> },
    AwaitUpdate { credential: Credential, flags: UserFlags },
    Done,
}

/// What the caller reports back after performing an action.
pub enum GaEvent {
    Begin,
    /// The credentials the store located, the most recently created first.
    Found(Result<Vec<Credential>, Ctap2Error>),
    UserChecked(Result<UserFlags, Ctap2Error>),
    Updated(Result<(), Ctap2Error>),
}

/// What the caller is to do next.
pub enum GaAction {
    /// Locate the credentials bound to the relying party, restricted to the allow list where
    /// one is given.
    FindCredentials { allow_list: Option<Vec<Vec<u8>>>, rp_id: String },
    /// Run the consent ceremony with the located credential, if any.
    CheckUser { options: Options, credential: Option<Credential> },
    /// Replace the stored credential with this one.
    UpdateCredential(Credential),
    Respond(GetAssertionResponse),
    Fail(Ctap2Error),
}

/// The decision that an event leads to.
pub ghost enum GaOutcome {
    AskCredentials,
    AskUser(Result<CredentialModel, Ctap2Error>),
    Update(CredentialModel, UserFlags),
    Sign(CredentialModel, UserFlags),
    Fail(Ctap2Error),
}

/// An assertion in progress.
pub struct GetAssertion {
    pub authenticator: Authenticator,
    pub request: GetAssertionRequest,
    pub phase: GaPhase,
}

/// The counter after a use: one more, held at its largest value once there.
pub open spec fn next_counter(counter: Option<u32>) -> Option<u32> {
    match counter {
        Some(n) => Some(if n < u32::MAX { (n + 1) as u32 } else { n }),
        None => None,
    }
}

pub open spec fn found_model(found: Result<Credential, Ctap2Error>) -> Result<CredentialModel, Ctap2Error> {
    match found {
        Ok(c) => Ok(c@),
        Err(e) => Err(e),
    }
}

/// The first located credential, or `NoCredentials` where the store located none.
pub open spec fn first_located(r: Result<Vec<Credential>, Ctap2Error>) -> Result<CredentialModel, Ctap2Error> {
    match r {
        Ok(v) => if v@.len() > 0 {
            Ok(v@[0]@)
        } else {
            Err(Ctap2Error::NoCredentials)
        },
        Err(e) => Err(e),
    }
}

/// The allow list handed to the store: absent where the request's is absent or empty.
pub open spec fn effective_allow_list(req: GetAssertionRequest) -> Option<Seq<Seq<u8>>> {
    match req.allow_list {
        Some(l) => if l@.len() > 0 {
            Some(ids_model(l))
        } else {
            None
        },
        None => None,
    }
}

pub open spec fn allow_list_model(l: Option<Vec<Vec<u8>>>) -> Option<Seq<Seq<u8>>> {
    match l {
        Some(v) => Some(ids_model(v)),
        None => None,
    }
}

pub open spec fn credential_model(c: Option<Credential>) -> Option<CredentialModel> {
    match c {
        Some(c) => Some(c@),
        None => None,
    }
}

/// What an assertion with credential `c` holds: its authenticator data carries the counter
/// as it now stands, and the signature covers that data followed by the client data hash.
pub open spec fn signed(
    auth: Authenticator,
    req: GetAssertionRequest,
    flags: UserFlags,
    c: CredentialModel,
    resp: GetAssertionResponse,
) -> bool {
    &&& resp.credential_id@ == c.credential_id
    &&& auth_data_for(req.rp_id@, flags, c.counter, resp.auth_data)
    &&& resp.auth_data.attested_credential_data is None
    &&& resp.auth_data.extensions is None
    &&& resp.signature@ == es256_signature_of(
        c.key,
        resp.auth_data.bytes_spec() + req.client_data_hash@,
    )
    &&& opt_bytes(resp.user_handle) == c.user_handle
    &&& resp.number_of_credentials is None
    &&& unsigned_model(resp.unsigned_extension_outputs) == assertion_negotiation(
        auth.hmac_secret,
        c.hmac_secret,
        req.extensions,
        flags.uv,
    )
}

/// The bytes that an assertion signs: its authenticator data (the relying party's hash, the
/// flags and the counter as it now stands) followed by the client data hash.
pub open spec fn signing_target(req: GetAssertionRequest, flags: UserFlags, c: CredentialModel) -> Seq<u8> {
    sha256_of(encode_utf8(req.rp_id@)) + seq![flags_byte_spec(flags, false, false)] + be32(
        counter_value(c.counter),
    ) + req.client_data_hash@
}

/// Signing ends the procedure with an assertion, or with `InvalidCredential` exactly where
/// ES256 signing of the target under the stored key fails.
pub open spec fn sign_spec(
    auth: Authenticator,
    req: GetAssertionRequest,
    flags: UserFlags,
    c: CredentialModel,
    phase: GaPhase,
    action: GaAction,
) -> bool {
    &&& phase is Done
    &&& match action {
        GaAction::Respond(resp) => signed(auth, req, flags, c, resp) && es256_signs(
            c.key,
            signing_target(req, flags, c),
        ),
        GaAction::Fail(e) => e == Ctap2Error::InvalidCredential && !es256_signs(
            c.key,
            signing_target(req, flags, c),
        ),
        _ => false,
    }
}

impl GetAssertion {
    pub fn new(authenticator: Authenticator, request: GetAssertionRequest) -> (r: GetAssertion)
        ensures
            r.authenticator == authenticator,
            r.request == request,
            r.phase is Start,
    {
        GetAssertion { authenticator, request, phase: GaPhase::Start }
    }

    /// Whether `event` answers the action of the current phase.
    pub open spec fn expects(&self, event: GaEvent) -> bool {
        match (self.phase, event) {
            (GaPhase::Start, GaEvent::Begin) => true,
            (GaPhase::AwaitCredentials, GaEvent::Found(_)) => true,
            (GaPhase::AwaitUser { .. }, GaEvent::UserChecked(_)) => true,
            (GaPhase::AwaitUpdate { .. }, GaEvent::Updated(_)) => true,
            _ => false,
        }
    }

    /// The decision of the procedure: PIN auth and the resident-key option are refused before
    /// the store is touched, consent is asked whether or not a credential was located, the
    /// lack of one is reported only after it, and an active counter is advanced and persisted
    /// before signing.
    pub open spec fn outcome(&self, event: GaEvent) -> GaOutcome {
        match (self.phase, event) {
            (GaPhase::Start, GaEvent::Begin) => if self.request.pin_auth is Some {
                GaOutcome::Fail(Ctap2Error::PinAuthInvalid)
            } else if self.request.options.rk {
                GaOutcome::Fail(Ctap2Error::UnsupportedOption)
            } else {
                GaOutcome::AskCredentials
            },
            (GaPhase::AwaitCredentials, GaEvent::Found(r)) => GaOutcome::AskUser(first_located(r)),
            (GaPhase::AwaitUser { .. }, GaEvent::UserChecked(Err(e))) => GaOutcome::Fail(e),
            (GaPhase::AwaitUser { found }, GaEvent::UserChecked(Ok(flags))) => match found {
                Err(e) => GaOutcome::Fail(e),
                Ok(c) => if c.counter is Some {
                    GaOutcome::Update(CredentialModel { counter: next_counter(c@.counter), ..c@ }, flags)
                } else {
                    GaOutcome::Sign(c@, flags)
                },
            },
            (GaPhase::AwaitUpdate { credential, flags }, GaEvent::Updated(Ok(()))) => GaOutcome::Sign(
                credential@,
                flags,
            ),
            (GaPhase::AwaitUpdate { .. }, GaEvent::Updated(Err(e))) => GaOutcome::Fail(e),
            _ => GaOutcome::Fail(Ctap2Error::Other),
        }
    }

    /// How an outcome shows in the next phase and action.
    pub open spec fn step_spec(&self, event: GaEvent, phase: GaPhase, action: GaAction) -> bool {
        let req = self.request;
        match self.outcome(event) {
            GaOutcome::AskCredentials => {
                &&& phase is AwaitCredentials
                &&& match action {
                    GaAction::FindCredentials { allow_list, rp_id } => rp_id@ == req.rp_id@
                        && allow_list_model(allow_list) == effective_allow_list(req),
                    _ => false,
                }
            },
            GaOutcome::AskUser(found) => {
                &&& phase matches GaPhase::AwaitUser { found: f } && found_model(f) == found
                &&& match action {
                    GaAction::CheckUser { options, credential } => options == req.options
                        && credential_model(credential) == match found {
                        Ok(c) => Some(c),
                        Err(_) => None,
                    },
                    _ => false,
                }
            },
            GaOutcome::Update(c, flags) => {
                &&& phase matches GaPhase::AwaitUpdate { credential, flags: f } && credential@ == c
                    && f == flags
                &&& action matches GaAction::UpdateCredential(credential) && credential@ == c
            },
            GaOutcome::Sign(c, flags) => sign_spec(
                self.authenticator,
                req,
                flags,
                c,
                phase,
                action,
            ),
            GaOutcome::Fail(e) => phase is Done && action == GaAction::Fail(e),
        }
    }

    /// Advances the procedure by one event and says what to do next.
    pub fn step(self, event: GaEvent) -> (r: (GetAssertion, GaAction))
        requires
            self.expects(event),
        ensures
            r.0.authenticator == self.authenticator,
            r.0.request == self.request,
            self.step_spec(event, r.0.phase, r.1),
    {
        let GetAssertion { authenticator, request, phase } = self;
        let (phase, action) = match phase {
            GaPhase::Start => {
                if request.pin_auth.is_some() {
                    (GaPhase::Done, GaAction::Fail(Ctap2Error::PinAuthInvalid))
                } else if request.options.rk {
                    (GaPhase::Done, GaAction::Fail(Ctap2Error::UnsupportedOption))
                } else {
                    let allow_list = match &request.allow_list {
                        Some(l) => if l.len() > 0 {
                            Some(copy_id_list(l))
                        } else {
                            None
                        },
                        None => None,
                    };
                    (
                        GaPhase::AwaitCredentials,
                        GaAction::FindCredentials { allow_list, rp_id: request.rp_id.clone() },
                    )
                }
            },
            GaPhase::AwaitCredentials => {
                match event {
                    GaEvent::Found(r) => {
                        let found: Result<Credential, Ctap2Error> = match r {
                            Ok(mut v) => if v.len() > 0 {
                                Ok(v.remove(0))
                            } else {
                                Err(Ctap2Error::NoCredentials)
                            },
                            Err(e) => Err(e),
                        };
                        let credential = match &found {
                            Ok(c) => Some(c.duplicate()),
                            Err(_) => None,
                        };
                        (
                            GaPhase::AwaitUser { found },
                            GaAction::CheckUser { options: request.options, credential },
                        )
                    },
                    _ => (GaPhase::Done, GaAction::Fail(Ctap2Error::Other)),
                }
            },
            GaPhase::AwaitUser { found } => {
                match event {
                    GaEvent::UserChecked(Err(e)) => (GaPhase::Done, GaAction::Fail(e)),
                    GaEvent::UserChecked(Ok(flags)) => {
                        match found {
                            Err(e) => (GaPhase::Done, GaAction::Fail(e)),
                            Ok(mut c) => {
                                match c.counter {
                                    Some(n) => {
                                        c.counter = Some(
                                            if n < u32::MAX {
                                                n + 1
                                            } else {
                                                n
                                            },
                                        );
                                        let copy = c.duplicate();
                                        (
                                            GaPhase::AwaitUpdate { credential: c, flags },
                                            GaAction::UpdateCredential(copy),
                                        )
                                    },
                                    None => sign(&authenticator, &request, flags, &c),
                                }
                            },
                        }
                    },
                    _ => (GaPhase::Done, GaAction::Fail(Ctap2Error::Other)),
                }
            },
            GaPhase::AwaitUpdate { credential, flags } => {
                match event {
                    GaEvent::Updated(Ok(())) => sign(&authenticator, &request, flags, &credential),
                    GaEvent::Updated(Err(e)) => (GaPhase::Done, GaAction::Fail(e)),
                    _ => (GaPhase::Done, GaAction::Fail(Ctap2Error::Other)),
                }
            },
            GaPhase::Done => (GaPhase::Done, GaAction::Fail(Ctap2Error::Other)),
        };
        (GetAssertion { authenticator, request, phase }, action)
    }
}

/// Negotiates extensions, assembles the authenticator data and signs it followed by the
/// client data hash.
fn sign(auth: &Authenticator, req: &GetAssertionRequest, flags: UserFlags, c: &Credential) -> (r: (
    GaPhase,
    GaAction,
))
    ensures
        sign_spec(*auth, *req, flags, c@, r.0, r.1),
{
    let unsigned = assertion_extensions(&auth.hmac_secret, &c.hmac_secret, &req.extensions, flags.uv);
    let auth_data = make_auth_data(&req.rp_id, flags, c.counter, None, None);
    let mut target = auth_data.to_vec();
    append_bytes(&mut target, req.client_data_hash.as_slice());
    assert(target@ =~= signing_target(*req, flags, c@));
    let signature = es256_sign(c.key.as_slice(), target.as_slice());
    assertion_response(c, auth_data, signature, unsigned)
}

/// The end of an assertion given the outcome of signing: the assertion made of the credential,
/// the authenticator data, the signature and the extension outputs, or `InvalidCredential`
/// where the key could not sign.
pub fn assertion_response(
    c: &Credential,
    auth_data: AuthenticatorData,
    signature: Option<Vec<u8>>,
    unsigned: Option<UnsignedExtensionOutputs>,
) -> (r: (GaPhase, GaAction))
    ensures
        r.0 is Done,
        match signature {
            Some(s) => match r.1 {
                GaAction::Respond(resp) => {
                    &&& resp.credential_id@ == c@.credential_id
                    &&& resp.auth_data == auth_data
                    &&& resp.signature == s
                    &&& opt_bytes(resp.user_handle) == c@.user_handle
                    &&& resp.number_of_credentials is None
                    &&& resp.unsigned_extension_outputs == unsigned
                },
                _ => false,
            },
            None => r.1 == GaAction::Fail(Ctap2Error::InvalidCredential),
        },
{
    match signature {
        Some(signature) => {
            let c2 = c.duplicate();
            let response = GetAssertionResponse {
                credential_id: c2.credential_id,
                auth_data,
                signature,
                user_handle: c2.user_handle,
                number_of_credentials: None,
                unsigned_extension_outputs: unsigned,
            };
            (GaPhase::Done, GaAction::Respond(response))
        },
        None => (GaPhase::Done, GaAction::Fail(Ctap2Error::InvalidCredential)),
    }
}

} // verus!

verus! {

/// An assertion with a credential whose counter is active stores the counter advanced by
/// exactly one before signing; it then succeeds exactly where the credential's key signs, and
/// the authenticator data it returns carries that same counter value.
pub proof fn lemma_counter_advances_by_one(
    g: GetAssertion,
    flags: UserFlags,
    n: u32,
    mid: GetAssertion,
    update: GaAction,
    end_phase: GaPhase,
    last: GaAction,
)
    requires
        g.phase matches GaPhase::AwaitUser { found: Ok(c) } && c.counter == Some(n),
        n < u32::MAX,
        g.step_spec(GaEvent::UserChecked(Ok(flags)), mid.phase, update),
        mid.authenticator == g.authenticator,
        mid.request == g.request,
        mid.step_spec(GaEvent::Updated(Ok(())), end_phase, last),
    ensures
        update matches GaAction::UpdateCredential(credential) && credential@.counter == Some(
            (n + 1) as u32,
        ) && (last is Respond <==> es256_signs(
            credential@.key,
            signing_target(g.request, flags, credential@),
        )),
        last matches GaAction::Respond(resp) ==> resp.auth_data.counter == Some((n + 1) as u32),
{
}

/// Where the store locates no credential, consent is still asked, with no credential, and
/// `NoCredentials` comes only as the answer to it; no other step reports it but one that
/// follows consent.
pub proof fn lemma_consent_precedes_no_credentials(
    g: GetAssertion,
    located: Vec<Credential>,
    mid: GetAssertion,
    ask: GaAction,
    answer: Result<UserFlags, Ctap2Error>,
    end_phase: GaPhase,
    last: GaAction,
)
    requires
        g.phase is AwaitCredentials,
        located@.len() == 0,
        g.step_spec(GaEvent::Found(Ok(located)), mid.phase, ask),
        mid.authenticator == g.authenticator,
        mid.request == g.request,
        mid.step_spec(GaEvent::UserChecked(answer), end_phase, last),
    ensures
        ask matches GaAction::CheckUser { credential, .. } && credential is None,
        answer is Ok ==> last == GaAction::Fail(Ctap2Error::NoCredentials),
        answer matches Err(e) ==> last == GaAction::Fail(e),
        end_phase is Done,
{
}

/// No step reports `NoCredentials` of its own accord before consent was asked.
pub proof fn lemma_no_credentials_only_after_consent(
    g: GetAssertion,
    event: GaEvent,
    phase: GaPhase,
    action: GaAction,
)
    requires
        g.expects(event),
        g.step_spec(event, phase, action),
        action == GaAction::Fail(Ctap2Error::NoCredentials),
    ensures
        g.phase is AwaitUser || (g.phase is AwaitUpdate && event == GaEvent::Updated(
            Err(Ctap2Error::NoCredentials),
        )),
{
}

/// A request with PIN auth fails with `PinAuthInvalid` at once, before the store is asked.
pub proof fn lemma_pin_auth_fails_at_once(g: GetAssertion, phase: GaPhase, action: GaAction)
    requires
        g.phase is Start,
        g.request.pin_auth is Some,
        g.step_spec(GaEvent::Begin, phase, action),
    ensures
        action == GaAction::Fail(Ctap2Error::PinAuthInvalid),
        phase is Done,
{
}

/// What a store's lookup may return for a relying party and an allow list: credentials bound
/// to that relying party, and among the allowed ids where there is a list.
pub open spec fn lookup_admits(
    allow_list: Option<Seq<Seq<u8>>>,
    rp_id: Seq<char>,
    c: CredentialModel,
) -> bool {
    &&& c.rp_id == rp_id
    &&& allow_list matches Some(l) ==> l.contains(c.credential_id)
}

/// A credential created with the resident-key option is found again by an assertion for the
/// same relying party without an allow list: the lookup asked for admits it; where the store
/// returns it first, consent is asked with it; once consent is given, a counter-less credential
/// is asserted (exactly where its key signs) with its id and the user's handle, and one with a
/// counter is first updated.
pub proof fn lemma_resident_credential_is_discoverable(
    auth: Authenticator,
    mreq: MakeCredentialRequest,
    flags: UserFlags,
    cred: Credential,
    mresp: MakeCredentialResponse,
    g: GetAssertion,
    mid: GetAssertion,
    find: GaAction,
    located: Vec<Credential>,
    consenting: GetAssertion,
    ask: GaAction,
    uflags: UserFlags,
    end_phase: GaPhase,
    last: GaAction,
)
    requires
        created(auth, mreq, flags, cred, mresp),
        mreq.options.rk,
        g.phase is Start,
        g.request.rp_id@ == mreq.rp_id@,
        g.request.pin_auth is None,
        !g.request.options.rk,
        g.request.allow_list matches Some(l) ==> l@.len() == 0,
        g.step_spec(GaEvent::Begin, mid.phase, find),
        mid.authenticator == g.authenticator,
        mid.request == g.request,
        located@.len() > 0,
        located@[0]@ == cred@,
        mid.step_spec(GaEvent::Found(Ok(located)), consenting.phase, ask),
        consenting.authenticator == g.authenticator,
        consenting.request == g.request,
        consenting.step_spec(GaEvent::UserChecked(Ok(uflags)), end_phase, last),
    ensures
        find matches GaAction::FindCredentials { allow_list, rp_id } && allow_list is None
            && lookup_admits(allow_list_model(allow_list), rp_id@, cred@),
        ask matches GaAction::CheckUser { credential: Some(c), .. } && c@ == cred@,
        cred@.user_handle == Some(mreq.user_id@),
        cred@.counter is None ==> (last is Respond <==> es256_signs(
            cred@.key,
            signing_target(g.request, uflags, cred@),
        )),
        cred@.counter is None ==> (last matches GaAction::Respond(resp)
            ==> resp.credential_id@ == cred@.credential_id && opt_bytes(resp.user_handle) == Some(
            mreq.user_id@,
        )),
        cred@.counter is Some ==> (last matches GaAction::UpdateCredential(u)
            && u@.credential_id == cred@.credential_id),
{
}

} // verus!
