use vstd::prelude::*;

verus! {

/// Status codes that the two operations hand back to the host, which encodes them on the wire.
#[derive(Clone, Copy, Debug, PartialEq, Eq, Structural)]
pub enum Ctap2Error {
    /// An option is known but not valid for the command (user presence turned off on creation).
    InvalidOption,
    /// An option is known but not supported (resident key where it cannot be honoured, PIN auth).
    UnsupportedOption,
    /// PIN authentication was supplied; no PIN protocol is implemented.
    PinAuthInvalid,
    /// A credential of the exclude list is already bound to the relying party.
    CredentialExcluded,
    /// None of the offered algorithms is supported.
    UnsupportedAlgorithm,
    /// No credential matched the assertion request.
    NoCredentials,
    /// The user declined or did not answer the consent ceremony.
    OperationDenied,
    /// The credential store has no room left.
    KeyStoreFull,
    /// The stored key of a credential could not be used.
    InvalidCredential,
    /// Any other failure, for instance one reported by a credential store.
    Other,
}

impl Ctap2Error {
    pub open spec fn code_spec(self) -> u8 {
        match self {
            Ctap2Error::InvalidOption => 0x2C,
            Ctap2Error::UnsupportedOption => 0x2B,
            Ctap2Error::PinAuthInvalid => 0x33,
            Ctap2Error::CredentialExcluded => 0x19,
            Ctap2Error::UnsupportedAlgorithm => 0x26,
            Ctap2Error::NoCredentials => 0x2E,
            Ctap2Error::OperationDenied => 0x27,
            Ctap2Error::KeyStoreFull => 0x28,
            Ctap2Error::InvalidCredential => 0x22,
            Ctap2Error::Other => 0x7F,
        }
    }

    /// The CTAP2 status byte of this error.
    pub fn status_code(&self) -> (r: u8)
        ensures
            r == self.code_spec(),
    {
        match self {
            Ctap2Error::InvalidOption => 0x2C,
            Ctap2Error::UnsupportedOption => 0x2B,
            Ctap2Error::PinAuthInvalid => 0x33,
            Ctap2Error::CredentialExcluded => 0x19,
            Ctap2Error::UnsupportedAlgorithm => 0x26,
            Ctap2Error::NoCredentials => 0x2E,
            Ctap2Error::OperationDenied => 0x27,
            Ctap2Error::KeyStoreFull => 0x28,
            Ctap2Error::InvalidCredential => 0x22,
            Ctap2Error::Other => 0x7F,
        }
    }
}

/// The `rk`, `up` and `uv` options of a request.
#[derive(Clone, Copy, Debug, PartialEq, Eq, Structural)]
pub struct Options {
    pub rk: bool,
    pub up: bool,
    pub uv: bool,
}

/// What the consent ceremony established.
#[derive(Clone, Copy, Debug, PartialEq, Eq, Structural)]
pub struct UserFlags {
    pub up: bool,
    pub uv: bool,
}

/// User present, bit 0 of the authenticator data flags.
pub const FLAG_UP: u8 = 0x01;
/// User verified, bit 2.
pub const FLAG_UV: u8 = 0x04;
/// Backup eligible, bit 3: credentials of this authenticator may be synchronised.
pub const FLAG_BE: u8 = 0x08;
/// Backed up, bit 4.
pub const FLAG_BS: u8 = 0x10;
/// Attested credential data included, bit 6.
pub const FLAG_AT: u8 = 0x40;
/// Extension data included, bit 7.
pub const FLAG_ED: u8 = 0x80;

pub open spec fn flags_byte_spec(flags: UserFlags, attested: bool, extensions: bool) -> u8 {
    ((if flags.up { FLAG_UP } else { 0u8 }) | (if flags.uv { FLAG_UV } else { 0u8 }) | FLAG_BE
        | FLAG_BS | (if attested { FLAG_AT } else { 0u8 }) | (if extensions { FLAG_ED } else { 0u8 })) as u8
}

/// The flags byte of authenticator data: the ceremony's flags, the backup bits that every
/// credential of this authenticator carries, and whether attested credential data and
/// extension data follow.
pub fn flags_byte(flags: UserFlags, attested: bool, extensions: bool) -> (r: u8)
    ensures
        r == flags_byte_spec(flags, attested, extensions),
{
    (if flags.up { FLAG_UP } else { 0u8 }) | (if flags.uv { FLAG_UV } else { 0u8 }) | FLAG_BE
        | FLAG_BS | (if attested { FLAG_AT } else { 0u8 }) | (if extensions { FLAG_ED } else { 0u8 })
}

pub open spec fn opt_bytes(o: Option<Vec<u8>>) -> Option<Seq<u8>> {
    match o {
        Some(v) => Some(v@),
        None => None,
    }
}

pub fn copy_bytes(v: &Vec<u8>) -> (r: Vec<u8>)
    ensures
        r@ == v@,
{
    let mut r: Vec<u8> = Vec::new();
    let mut i: usize = 0;
    while i < v.len()
        invariant
            i <= v@.len(),
            r@ == v@.subrange(0, i as int),
        decreases v@.len() - i,
    {
        r.push(v[i]);
        i = i + 1;
    }
    assert(r@ =~= v@);
    r
}

pub fn copy_opt_bytes(o: &Option<Vec<u8>>) -> (r: Option<Vec<u8>>)
    ensures
        opt_bytes(r) == opt_bytes(*o),
{
    match o {
        Some(v) => Some(copy_bytes(v)),
        None => None,
    }
}

} // verus!

verus! {

/// A list of credential ids as byte strings.
pub open spec fn ids_model(l: Vec<Vec<u8>>) -> Seq<Seq<u8>> {
    l@.map_values(|v: Vec<u8>| v@)
}

pub fn copy_id_list(l: &Vec<Vec<u8>>) -> (r: Vec<Vec<u8>>)
    ensures
        ids_model(r) == ids_model(*l),
{
    let mut r: Vec<Vec<u8>> = Vec::new();
    let mut i: usize = 0;
    while i < l.len()
        invariant
            i <= l@.len(),
            r@.len() == i,
            forall|j: int| 0 <= j < i ==> (#[trigger] r@[j])@ == l@[j]@,
        decreases l@.len() - i,
    {
        r.push(copy_bytes(&l[i]));
        i = i + 1;
    }
    assert(ids_model(r) =~= ids_model(*l));
    r
}

} // verus!
