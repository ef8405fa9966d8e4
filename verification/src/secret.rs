//! Secrets: texts that are wiped from memory when dropped and that do not
//! show in debug output.

use secrecy::{ExposeSecret, Secret};
use vstd::prelude::*;

verus! {

/// A text under the guard of `secrecy::Secret`. The guarded text is the
/// value's view.
#[verifier::external_body]
#[derive(Debug)]
pub struct SecretText {
    inner: Secret<String>,
}

/// The text that a secret guards.
pub uninterp spec fn secret_text(secret: SecretText) -> Seq<char>;

impl View for SecretText {
    type V = Seq<char>;

    open spec fn view(&self) -> Seq<char> {
        secret_text(*self)
    }
}

/// Puts `text` under guard with `secrecy::Secret::new`, which stores the
/// value it is given.
#[verifier::external_body]
fn seal(text: String) -> (secret: SecretText)
    ensures
        secret_text(secret) == text@,
{
    SecretText { inner: Secret::new(text) }
}

/// Reads the guarded text with `secrecy::ExposeSecret::expose_secret`, which
/// hands out a reference to the stored value.
#[verifier::external_body]
fn unseal(secret: &SecretText) -> (text: &String)
    ensures
        text@ == secret_text(*secret),
{
    secret.inner.expose_secret()
}

/// Copies a secret with the `Clone` impl of `secrecy::Secret`, which clones
/// the stored value into a new secret.
#[verifier::external_body]
fn duplicate(secret: &SecretText) -> (copy: SecretText)
    ensures
        secret_text(copy) == secret_text(*secret),
{
    SecretText { inner: secret.inner.clone() }
}

impl SecretText {
    /// Puts `text` under guard.
    pub fn new(text: String) -> (secret: SecretText)
        ensures
            secret@ == text@,
    {
        seal(text)
    }

    /// The guarded text. Call this where the text is needed, and nowhere
    /// earlier.
    pub fn expose_secret(&self) -> (text: &String)
        ensures
            text@ == self@,
    {
        unseal(self)
    }
}

impl Clone for SecretText {
    fn clone(&self) -> (copy: SecretText)
        ensures
            copy@ == self@,
    {
        duplicate(self)
    }
}

} // verus!
