//! Trusted boundary around the `rsa` crate: type declarations, names for the
//! cryptographic results, and the wrappers that make the outside calls.
//!
//! Everything verified about signing rests on the contracts stated here, so
//! each wrapper's clauses say no more than the `rsa` crate's source and
//! documentation show of the call it makes.
use vstd::prelude::*;

verus! {

#[verifier::external_type_specification]
#[verifier::external_body]
pub struct ExRsaPrivateKey(rsa::RsaPrivateKey);

#[verifier::external_type_specification]
#[verifier::external_body]
pub struct ExRsaPublicKey(rsa::RsaPublicKey);

/// Bit size of every modulus this library generates keys for.
const RSA_BITS: usize = 2048;

/// Holds of a private key that `rsa::RsaPrivateKey::new` generated for a
/// 2048-bit modulus: a validated key whose modulus is exactly 256 bytes wide,
/// so that signing with it succeeds and yields one modulus-sized block.
pub uninterp spec fn is_rsa_2048_key(key: rsa::RsaPrivateKey) -> bool;

/// The public half (modulus and public exponent) of a private key, as
/// `rsa::RsaPublicKey::from` builds it: a pure function of the private key.
pub uninterp spec fn public_key_of(key: rsa::RsaPrivateKey) -> rsa::RsaPublicKey;

/// The PKCS#1 v1.5 signature over a SHA-256 digest under a private key, as
/// `rsa::RsaPrivateKey::sign` computes it. Without a blinding rng that
/// computation is documented as deterministic, so the signature is a function
/// of the key and the digest alone.
pub uninterp spec fn sha256_pkcs1v15_signature(key: rsa::RsaPrivateKey, digest: Seq<u8>) -> Seq<u8>;

/// Whether a signature validates under a public key for given signed data, as
/// `rsa::PublicKey::verify` with PKCS#1 v1.5 padding over SHA-256 decides it:
/// a pure function of the key, the data and the signature.
pub uninterp spec fn sha256_pkcs1v15_verifies(key: rsa::RsaPublicKey, data: Seq<u8>, sig: Seq<u8>) -> bool;

/// Relies on `rsa::RsaPrivateKey::new` with `rand::rngs::OsRng`: it returns a
/// freshly generated, validated private key of the requested bit size. The key
/// depends on the operating system's randomness, so nothing more is promised
/// of which key comes back. Generation failure aborts the process.
#[verifier::external_body]
pub(crate) fn generate_private_key() -> (key: rsa::RsaPrivateKey)
    ensures
        is_rsa_2048_key(key),
{
    let mut rng = rand::rngs::OsRng;
    rsa::RsaPrivateKey::new(&mut rng, RSA_BITS).expect("private key generation fail!!!")
}

/// Relies on `rsa::RsaPublicKey::from(&RsaPrivateKey)`: it clones the modulus
/// and public exponent out of the private key, a pure function of it.
#[verifier::external_body]
pub(crate) fn public_key_from_private(key: &rsa::RsaPrivateKey) -> (public_key: rsa::RsaPublicKey)
    ensures
        public_key == public_key_of(*key),
{
    rsa::RsaPublicKey::from(key)
}

/// Relies on `rsa::RsaPrivateKey::sign` with PKCS#1 v1.5 padding over
/// SHA-256: for a validated 2048-bit key and a 32-byte digest it succeeds and
/// returns one 256-byte block, it is documented as deterministic when no
/// blinding rng is passed, and the block it returns is the one that
/// `rsa::PublicKey::verify` accepts under the key's public half for the same
/// digest. Signing failure aborts the process.
#[verifier::external_body]
pub(crate) fn sign_sha256_digest(key: &rsa::RsaPrivateKey, digest: &[u8; 32]) -> (sign: [u8; 256])
    requires
        is_rsa_2048_key(*key),
    ensures
        sign@ == sha256_pkcs1v15_signature(*key, digest@),
        sha256_pkcs1v15_verifies(public_key_of(*key), digest@, sign@),
{
    let padding = rsa::PaddingScheme::new_pkcs1v15_sign(Some(rsa::Hash::SHA2_256));
    let raw = key.sign(padding, digest).unwrap();
    raw.try_into().expect("Digitally sign generation failed!")
}

/// Relies on `rsa::PublicKey::verify` with PKCS#1 v1.5 padding over SHA-256:
/// it returns `Ok` exactly when the signature block decodes under the public
/// key to the expected padded digest, deciding from the key, the data and the
/// signature alone, and it returns an error rather than panicking on any
/// mismatch or malformed input.
#[verifier::external_body]
pub(crate) fn verify_sha256_signature(
    key: &rsa::RsaPublicKey,
    data: &[u8],
    sign: &[u8; 256],
) -> (valid: bool)
    ensures
        valid == sha256_pkcs1v15_verifies(*key, data@, sign@),
{
    let padding = rsa::PaddingScheme::new_pkcs1v15_sign(Some(rsa::Hash::SHA2_256));
    rsa::PublicKey::verify(key, padding, data, sign).is_ok()
}

} // verus!
