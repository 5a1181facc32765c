//! Secrets that must not show up in logs.

use vstd::prelude::*;

verus! {

/// A secret text, held in a `secrecy::SecretString`: redacted when it is
/// printed and wiped from memory when it is dropped.
///
/// The verifier cannot take a declaration of `secrecy::SecretBox`, whose type
/// parameter is bound by a trait of another crate, so the value is opaque here
/// and [`secret_text`] stands for the text it holds.
#[verifier::external_body]
#[derive(Debug)]
pub struct Secret {
    inner: secrecy::SecretString,
}

/// The text that a secret holds.
pub uninterp spec fn secret_text(secret: Secret) -> Seq<char>;

/// `secrecy::SecretString::from`: the new secret holds the given text.
#[verifier::external_body]
fn seal(text: &str) -> (secret: Secret)
    ensures
        secret_text(secret) == text@,
{
    Secret { inner: secrecy::SecretString::from(text) }
}

/// `secrecy::ExposeSecret::expose_secret`: the text that the secret holds.
#[verifier::external_body]
fn reveal_text(secret: &Secret) -> (text: &str)
    ensures
        text@ == secret_text(*secret),
{
    secrecy::ExposeSecret::expose_secret(&secret.inner)
}

/// `Clone` of `secrecy::SecretString`: the copy holds the same text.
#[verifier::external_body]
fn copy_secret(secret: &Secret) -> (copy: Secret)
    ensures
        secret_text(copy) == secret_text(*secret),
{
    Secret { inner: secret.inner.clone() }
}

impl Secret {
    /// A secret that holds `text`.
    pub fn new(text: &str) -> (secret: Secret)
        ensures
            secret_text(secret) == text@,
    {
        seal(text)
    }

    /// The text that the secret holds.
    pub fn expose_secret(&self) -> (text: &str)
        ensures
            text@ == secret_text(*self),
    {
        reveal_text(self)
    }
}

impl Clone for Secret {
    fn clone(&self) -> (copy: Secret)
        ensures
            secret_text(copy) == secret_text(*self),
    {
        copy_secret(self)
    }
}

} // verus!
