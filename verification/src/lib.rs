//! RSA-2048 digital signatures over SHA-256 digests with PKCS#1 v1.5
//! padding, delegating the cryptographic computation to the `rsa` crate
//! behind a small trusted boundary.

pub mod rsa_2048_encryption_provider;
pub mod rsa_backend;
