//! Secret containers for seeds and key data.
//!
//! A container owns one value. It hands the value out only through
//! `expose_secret`, prints a fixed placeholder in place of the bytes, and wipes
//! the value when it is dropped. All of that is the work of `secrecy::Secret`,
//! which each container holds. The verifier does not look inside a `Secret`:
//! it knows a container by the bytes that it stands for, and believes what the
//! private functions at the head of each section say of `Secret`'s methods.

use super::material::{KeyData, Seed};
use secrecy::{ExposeSecret, Secret};
use vstd::prelude::*;

verus! {

/// A seed held in a `secrecy::Secret`, which wipes it on drop.
#[verifier::external_body]
#[derive(Debug)]
pub struct SecretSeed {
    inner: Secret<Seed>,
}

/// The bytes of the seed that a container holds.
pub uninterp spec fn secret_seed_bytes(secret: SecretSeed) -> [u8; 32];

/// Calls `secrecy::Secret::new`, which takes ownership of the value and stores
/// it unchanged. The contract claims that the container holds the bytes of
/// `seed`.
#[verifier::external_body]
fn wrap_seed(seed: Seed) -> (secret: SecretSeed)
    ensures
        secret_seed_bytes(secret) == seed.s,
{
    SecretSeed { inner: Secret::new(seed) }
}

/// Calls `secrecy::ExposeSecret::expose_secret` on the `Secret`, which returns
/// a reference to the value it stores. The contract claims that the seed
/// handed out has the bytes that the container holds.
#[verifier::external_body]
fn expose_seed(secret: &SecretSeed) -> (seed: &Seed)
    ensures
        seed.s == secret_seed_bytes(*secret),
{
    secret.inner.expose_secret()
}

/// Calls `Clone::clone` of `secrecy::Secret`, which stores a clone of the
/// inner value in a new `Secret`. The contract claims that the new container
/// holds the same bytes.
#[verifier::external_body]
fn clone_secret_seed(secret: &SecretSeed) -> (copy: SecretSeed)
    ensures
        secret_seed_bytes(copy) == secret_seed_bytes(*secret),
{
    SecretSeed { inner: secret.inner.clone() }
}

impl View for SecretSeed {
    type V = Seq<u8>;

    open spec fn view(&self) -> Seq<u8> {
        secret_seed_bytes(*self)@
    }
}

impl SecretSeed {
    /// Takes ownership of `seed` and holds it as a secret.
    pub fn new(seed: Seed) -> (secret: SecretSeed)
        ensures
            secret@ == seed@,
    {
        wrap_seed(seed)
    }
}

impl ExposeSecret<Seed> for SecretSeed {
    /// The only way to read the seed.
    fn expose_secret(&self) -> (seed: &Seed)
        ensures
            seed@ == self@,
    {
        expose_seed(self)
    }
}

impl Clone for SecretSeed {
    /// A container of its own that holds the same bytes.
    fn clone(&self) -> (copy: SecretSeed)
        ensures
            copy@ == self@,
    {
        clone_secret_seed(self)
    }
}

/// Key data held in a `secrecy::Secret`, which wipes it on drop.
#[verifier::external_body]
#[derive(Debug)]
pub struct SecretKeyData {
    inner: Secret<KeyData>,
}

/// The bytes of the key data that a container holds.
pub uninterp spec fn secret_key_data_bytes(secret: SecretKeyData) -> [u8; 32];

/// Calls `secrecy::Secret::new`, which takes ownership of the value and stores
/// it unchanged. The contract claims that the container holds the bytes of
/// `data`.
#[verifier::external_body]
fn wrap_key_data(data: KeyData) -> (secret: SecretKeyData)
    ensures
        secret_key_data_bytes(secret) == data.d,
{
    SecretKeyData { inner: Secret::new(data) }
}

/// Calls `secrecy::ExposeSecret::expose_secret` on the `Secret`, which returns
/// a reference to the value it stores. The contract claims that the key data
/// handed out has the bytes that the container holds.
#[verifier::external_body]
fn expose_key_data(secret: &SecretKeyData) -> (data: &KeyData)
    ensures
        data.d == secret_key_data_bytes(*secret),
{
    secret.inner.expose_secret()
}

/// Calls `Clone::clone` of `secrecy::Secret`, which stores a clone of the
/// inner value in a new `Secret`. The contract claims that the new container
/// holds the same bytes.
#[verifier::external_body]
fn clone_secret_key_data(secret: &SecretKeyData) -> (copy: SecretKeyData)
    ensures
        secret_key_data_bytes(copy) == secret_key_data_bytes(*secret),
{
    SecretKeyData { inner: secret.inner.clone() }
}

impl View for SecretKeyData {
    type V = Seq<u8>;

    open spec fn view(&self) -> Seq<u8> {
        secret_key_data_bytes(*self)@
    }
}

impl SecretKeyData {
    /// Takes ownership of `data` and holds it as a secret.
    pub fn new(data: KeyData) -> (secret: SecretKeyData)
        ensures
            secret@ == data@,
    {
        wrap_key_data(data)
    }
}

impl ExposeSecret<KeyData> for SecretKeyData {
    /// The only way to read the key data.
    fn expose_secret(&self) -> (data: &KeyData)
        ensures
            data@ == self@,
    {
        expose_key_data(self)
    }
}

impl Clone for SecretKeyData {
    /// A container of its own that holds the same bytes.
    fn clone(&self) -> (copy: SecretKeyData)
        ensures
            copy@ == self@,
    {
        clone_secret_key_data(self)
    }
}

} // verus!
