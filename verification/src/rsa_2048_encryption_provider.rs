//! RSA-2048 signing over SHA-256 digests with PKCS#1 v1.5 padding: keypair
//! generation, digest signing, public-key derivation, and signature
//! validation.
use vstd::prelude::*;

use crate::rsa_backend;
use crate::rsa_backend::{
    is_rsa_2048_key, public_key_of, sha256_pkcs1v15_signature, sha256_pkcs1v15_verifies,
};

verus! {

/// A SHA-256 digest: the 32-byte value that gets signed.
pub type Sha256Digest = [u8; 32];

/// A detached RSA-2048 signature: one 256-byte PKCS#1 v1.5 block.
pub type RSA2048DigitalSign = [u8; 256];

/// The four operations of the RSA-2048/PKCS#1 v1.5/SHA-256 signing scheme.
pub trait RSA2048Provider {
    /// Generates a fresh key pair. The public key returned alongside the
    /// private key is exactly the private key's public half, and the private
    /// key is a validated 2048-bit key fit for signing.
    fn generate_rsa_keypair() -> (pair: (rsa::RsaPublicKey, rsa::RsaPrivateKey))
        ensures
            pair.0 == public_key_of(pair.1),
            is_rsa_2048_key(pair.1),
    ;

    /// Signs a SHA-256 digest, returning the PKCS#1 v1.5 signature block
    /// determined by the private key and the digest. The block validates
    /// under the private key's public half over the same digest.
    fn digitally_sign_sha256(
        private_key: &rsa::RsaPrivateKey,
        digest: &Sha256Digest,
    ) -> (sign: RSA2048DigitalSign)
        requires
            is_rsa_2048_key(*private_key),
        ensures
            sign@ == sha256_pkcs1v15_signature(*private_key, digest@),
            sha256_pkcs1v15_verifies(public_key_of(*private_key), digest@, sign@),
    ;

    /// Derives the public half of a private key. The result is determined by
    /// the private key alone, and agrees with the public key that
    /// `generate_rsa_keypair` returned alongside it.
    fn get_public_key_from_private_key(private_key: &rsa::RsaPrivateKey) -> (public_key:
        rsa::RsaPublicKey)
        ensures
            public_key == public_key_of(*private_key),
    ;

    /// Validates a detached signature over the signed data under a public
    /// key. Returns exactly the verdict of PKCS#1 v1.5/SHA-256 signature
    /// verification: it fails closed, answering `false` on any mismatch or
    /// malformed signature rather than erring or panicking.
    fn validate_signed(
        signed_data: &[u8],
        sign: &RSA2048DigitalSign,
        public_key: &rsa::RsaPublicKey,
    ) -> (valid: bool)
        ensures
            valid == sha256_pkcs1v15_verifies(*public_key, signed_data@, sign@),
    ;
}

pub struct RSA2048Util;

impl RSA2048Provider for RSA2048Util {
    fn generate_rsa_keypair() -> (pair: (rsa::RsaPublicKey, rsa::RsaPrivateKey)) {
        let private_key = rsa_backend::generate_private_key();
        let public_key = rsa_backend::public_key_from_private(&private_key);
        (public_key, private_key)
    }

    fn digitally_sign_sha256(
        private_key: &rsa::RsaPrivateKey,
        digest: &Sha256Digest,
    ) -> (sign: RSA2048DigitalSign) {
        rsa_backend::sign_sha256_digest(private_key, digest)
    }

    fn get_public_key_from_private_key(private_key: &rsa::RsaPrivateKey) -> (public_key:
        rsa::RsaPublicKey) {
        rsa_backend::public_key_from_private(private_key)
    }

    fn validate_signed(
        signed_data: &[u8],
        sign: &RSA2048DigitalSign,
        public_key: &rsa::RsaPublicKey,
    ) -> (valid: bool) {
        rsa_backend::verify_sha256_signature(public_key, signed_data, sign)
    }
}

/// Law: a digest signed with a validated 2048-bit private key always
/// validates under the public key derived from that same private key.
pub fn sign_then_validate(private_key: &rsa::RsaPrivateKey, digest: &Sha256Digest) -> (valid:
    bool)
    requires
        is_rsa_2048_key(*private_key),
    ensures
        valid,
{
    let public_key = RSA2048Util::get_public_key_from_private_key(private_key);
    let sign = RSA2048Util::digitally_sign_sha256(private_key, digest);
    RSA2048Util::validate_signed(digest.as_slice(), &sign, &public_key)
}

/// Law: deriving the public key is deterministic — any two public keys
/// derived from the same private key are equal, and equal in particular to
/// the public key returned alongside that private key at generation time.
pub proof fn lemma_public_key_derivation_deterministic(
    first: rsa::RsaPublicKey,
    second: rsa::RsaPublicKey,
    private_key: rsa::RsaPrivateKey,
)
    requires
        first == public_key_of(private_key),
        second == public_key_of(private_key),
    ensures
        first == second,
{
}

} // verus!
