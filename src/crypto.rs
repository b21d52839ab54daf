use vstd::prelude::*;

use hmac::Mac;
use p256::elliptic_curve::sec1::ToEncodedPoint;
use p256::ecdsa::signature::Signer;
use rand::RngCore;
use sha2::Digest;
use coset::CborSerializable;

verus! {

/// SHA-256 of a byte string.
pub uninterp spec fn sha256_of(data: Seq<u8>) -> Seq<u8>;

/// HMAC-SHA-256 under a key.
pub uninterp spec fn hmac_sha256_of(key: Seq<u8>, msg: Seq<u8>) -> Seq<u8>;

/// The deterministic (RFC 6979) ES256 signature of a message under a P-256 private scalar,
/// DER encoded.
pub uninterp spec fn es256_signature_of(private: Seq<u8>, msg: Seq<u8>) -> Seq<u8>;

/// Whether ES256 signing of a message under a private scalar succeeds: the scalar is a valid
/// P-256 private key and the deterministic nonce yields non-zero `r` and `s`.
pub uninterp spec fn es256_signs(private: Seq<u8>, msg: Seq<u8>) -> bool;

/// The affine coordinates of the P-256 public point of a private scalar, 32 bytes each.
pub uninterp spec fn p256_public_of(private: Seq<u8>) -> (Seq<u8>, Seq<u8>);

/// The CTAP2 canonical CBOR encoding of the COSE_Key of an ES256 public point.
pub uninterp spec fn cose_es256_key_of(x: Seq<u8>, y: Seq<u8>) -> Seq<u8>;

/// A P-256 key pair: the private scalar and the affine coordinates of the public point,
/// each 32 big-endian bytes.
pub struct KeyPair {
    pub private: Vec<u8>,
    pub x: Vec<u8>,
    pub y: Vec<u8>,
}

/// Relies on `rand::thread_rng` and `RngCore::fill_bytes`: `n` bytes from the operating
/// system's seeded generator.
#[verifier::external_body]
pub(crate) fn random_bytes(n: usize) -> (r: Vec<u8>)
    ensures
        r@.len() == n,
{
    let mut data = vec![0u8; n];
    rand::thread_rng().fill_bytes(&mut data);
    data
}

/// Relies on `p256::SecretKey::random` with `rand::thread_rng`, `SecretKey::public_key` and
/// `EncodedPoint::x`/`y` of the uncompressed encoding, which are present for the non-identity
/// point of a secret key: a fresh key pair, 32 bytes per part.
#[verifier::external_body]
pub(crate) fn generate_key_pair() -> (r: Option<KeyPair>)
    ensures
        r is Some,
        r matches Some(k) ==> k.private@.len() == 32 && k.x@.len() == 32 && k.y@.len() == 32
            && p256_public_of(k.private@) == (k.x@, k.y@),
{
    let secret = p256::SecretKey::random(&mut rand::thread_rng());
    let point = secret.public_key().to_encoded_point(false);
    match (point.x(), point.y()) {
        (Some(x), Some(y)) => Some(KeyPair {
            private: secret.to_bytes().to_vec(),
            x: x.to_vec(),
            y: y.to_vec(),
        }),
        _ => None,
    }
}

/// Relies on `sha2::Sha256::digest`: the 32-byte SHA-256 digest.
#[verifier::external_body]
pub(crate) fn sha256(data: &[u8]) -> (r: Vec<u8>)
    ensures
        r@ == sha256_of(data@),
        r@.len() == 32,
{
    sha2::Sha256::digest(data).to_vec()
}

/// Relies on `hmac::Hmac<Sha256>` (`new_from_slice`, `update`, `finalize`): the 32-byte tag.
/// `new_from_slice` of `Hmac` accepts keys of any length and always returns `Ok`.
#[verifier::external_body]
pub(crate) fn hmac_sha256(key: &[u8], msg: &[u8]) -> (r: Vec<u8>)
    ensures
        r@ == hmac_sha256_of(key@, msg@),
        r@.len() == 32,
{
    match hmac::Hmac::<sha2::Sha256>::new_from_slice(key) {
        Ok(mut m) => {
            m.update(msg);
            m.finalize().into_bytes().to_vec()
        },
        Err(_) => Vec::new(),
    }
}

/// Relies on `p256::ecdsa::SigningKey::from_slice` and `Signer::try_sign`, then
/// `Signature::to_der`: `None` where the scalar is no valid private key or signing fails.
#[verifier::external_body]
pub(crate) fn es256_sign(private: &[u8], msg: &[u8]) -> (r: Option<Vec<u8>>)
    ensures
        r is Some <==> es256_signs(private@, msg@),
        r matches Some(s) ==> s@ == es256_signature_of(private@, msg@),
{
    match p256::ecdsa::SigningKey::from_slice(private) {
        Ok(key) => match key.try_sign(msg) {
            Ok(sig) => {
                let sig: p256::ecdsa::Signature = sig;
                Some(sig.to_der().as_bytes().to_vec())
            },
            Err(_) => None,
        },
        Err(_) => None,
    }
}

/// Relies on `coset::CoseKeyBuilder::new_ec2_pub_key` on curve P-256 with algorithm ES256,
/// and `CborSerializable::to_vec`, which fails only on duplicate labels, and the builder makes
/// none.
#[verifier::external_body]
pub(crate) fn cose_es256_public_key(x: &Vec<u8>, y: &Vec<u8>) -> (r: Option<Vec<u8>>)
    ensures
        r is Some,
        r matches Some(k) ==> k@ == cose_es256_key_of(x@, y@),
{
    let key = coset::CoseKeyBuilder::new_ec2_pub_key(
        coset::iana::EllipticCurve::P_256,
        x.clone(),
        y.clone(),
    ).algorithm(coset::iana::Algorithm::ES256).build();
    key.to_vec().ok()
}

} // verus!
