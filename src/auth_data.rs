use vstd::prelude::*;

verus! {

/// Big-endian encoding of a 32-bit value.
pub open spec fn be32(c: u32) -> Seq<u8> {
    seq![(c >> 24u32) as u8, (c >> 16u32) as u8, (c >> 8u32) as u8, c as u8]
}

/// Big-endian encoding of a 16-bit value.
pub open spec fn be16(n: u16) -> Seq<u8> {
    seq![(n >> 8u16) as u8, n as u8]
}

/// Extension outputs covered by the signature. The one this authenticator produces is
/// hmac-secret's acknowledgement on creation.
pub struct SignedExtensionOutputs {
    pub hmac_secret: Option<bool>,
}

/// The CBOR map of signed extension outputs: `{"hmac-secret": b}`, or the empty map.
pub open spec fn signed_extensions_bytes(e: SignedExtensionOutputs) -> Seq<u8> {
    match e.hmac_secret {
        Some(b) => seq![
            0xA1u8, 0x6Bu8, 0x68u8, 0x6Du8, 0x61u8, 0x63u8, 0x2Du8, 0x73u8, 0x65u8, 0x63u8, 0x72u8,
            0x65u8, 0x74u8, if b { 0xF5u8 } else { 0xF4u8 },
        ],
        None => seq![0xA0u8],
    }
}

/// The block that binds a new credential to this authenticator: its identity, the credential
/// id and the COSE encoding of the credential's public key.
pub struct AttestedCredentialData {
    pub aaguid: [u8; 16],
    pub credential_id: Vec<u8>,
    pub public_key: Vec<u8>,
}

impl AttestedCredentialData {
    pub open spec fn wf(&self) -> bool {
        self.credential_id@.len() <= u16::MAX
    }

    pub open spec fn bytes_spec(&self) -> Seq<u8> {
        self.aaguid@ + be16(self.credential_id@.len() as u16) + self.credential_id@
            + self.public_key@
    }
}

/// The data that an authenticator signs: the relying party's hash, the flags, the signature
/// counter, on creation the attested credential, and the signed extension outputs.
pub struct AuthenticatorData {
    pub rp_id_hash: Vec<u8>,
    pub flags: u8,
    pub counter: Option<u32>,
    pub attested_credential_data: Option<AttestedCredentialData>,
    pub extensions: Option<SignedExtensionOutputs>,
}

/// The counter as it is written: an absent counter stays zero.
pub open spec fn counter_value(counter: Option<u32>) -> u32 {
    match counter {
        Some(c) => c,
        None => 0,
    }
}

impl AuthenticatorData {
    pub open spec fn wf(&self) -> bool {
        match self.attested_credential_data {
            Some(a) => a.wf(),
            None => true,
        }
    }

    /// The WebAuthn byte layout.
    pub open spec fn bytes_spec(&self) -> Seq<u8> {
        self.rp_id_hash@ + seq![self.flags] + be32(counter_value(self.counter)) + match self.attested_credential_data {
            Some(a) => a.bytes_spec(),
            None => Seq::empty(),
        } + match self.extensions {
            Some(e) => signed_extensions_bytes(e),
            None => Seq::empty(),
        }
    }

    /// Encodes the authenticator data in its byte layout.
    pub fn to_vec(&self) -> (r: Vec<u8>)
        requires
            self.wf(),
        ensures
            r@ == self.bytes_spec(),
    {
        let mut out: Vec<u8> = Vec::new();
        append_bytes(&mut out, self.rp_id_hash.as_slice());
        out.push(self.flags);
        let c: u32 = match self.counter {
            Some(c) => c,
            None => 0,
        };
        out.push((c >> 24u32) as u8);
        out.push((c >> 16u32) as u8);
        out.push((c >> 8u32) as u8);
        out.push(c as u8);
        assert(out@ =~= self.rp_id_hash@ + seq![self.flags] + be32(counter_value(self.counter)));
        match &self.attested_credential_data {
            Some(a) => {
                let start = Ghost(out@);
                append_bytes(&mut out, a.aaguid.as_slice());
                let n: u16 = a.credential_id.len() as u16;
                out.push((n >> 8u16) as u8);
                out.push(n as u8);
                append_bytes(&mut out, a.credential_id.as_slice());
                append_bytes(&mut out, a.public_key.as_slice());
                assert(out@ =~= start@ + a.bytes_spec());
            },
            None => {
                assert(out@ =~= out@ + Seq::<u8>::empty());
            },
        }
        let ghost before_ext = out@;
        match &self.extensions {
            Some(e) => {
                match e.hmac_secret {
                    Some(b) => {
                        let name: [u8; 13] = [
                            0xA1, 0x6B, 0x68, 0x6D, 0x61, 0x63, 0x2D, 0x73, 0x65, 0x63, 0x72, 0x65,
                            0x74,
                        ];
                        append_bytes(&mut out, name.as_slice());
                        out.push(if b { 0xF5u8 } else { 0xF4u8 });
                    },
                    None => {
                        out.push(0xA0u8);
                    },
                }
                assert(out@ =~= before_ext + signed_extensions_bytes(*e));
            },
            None => {
                assert(out@ =~= out@ + Seq::<u8>::empty());
            },
        }
        out
    }
}

/// Appends the bytes of `src` to `out`.
pub fn append_bytes(out: &mut Vec<u8>, src: &[u8])
    ensures
        final(out)@ == old(out)@ + src@,
{
    let ghost start = out@;
    let mut i: usize = 0;
    while i < src.len()
        invariant
            i <= src@.len(),
            out@ == start + src@.subrange(0, i as int),
        decreases src@.len() - i,
    {
        out.push(src[i]);
        i = i + 1;
        assert(out@ =~= start + src@.subrange(0, i as int));
    }
    assert(src@.subrange(0, i as int) =~= src@);
}

} // verus!
