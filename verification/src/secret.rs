//! Secret values, held by `secrecy`.
use secrecy::{ExposeSecret, SecretString};
use vstd::prelude::*;

verus! {

/// A secret text: a token, a signed identity or a stored value. It is kept in a
/// `secrecy::SecretString`, which wipes its memory when it is dropped and whose
/// text is read through `expose` alone.
#[verifier::external_body]
pub struct Secret {
    text: SecretString,
}

/// The text that a secret holds.
pub uninterp spec fn secret_text(secret: Secret) -> Seq<char>;

impl View for Secret {
    type V = Seq<char>;

    open spec fn view(&self) -> Seq<char> {
        secret_text(*self)
    }
}

/// Makes a secret with `SecretString::new`: it holds the given text.
#[verifier::external_body]
fn secret_new(text: String) -> (secret: Secret)
    ensures
        secret_text(secret) == text@,
{
    Secret { text: SecretString::new(text.into()) }
}

/// Reads a secret with `ExposeSecret::expose_secret`: it gives the text that the
/// secret holds.
#[verifier::external_body]
fn secret_expose(secret: &Secret) -> (text: &str)
    ensures
        text@ == secret_text(*secret),
{
    secret.text.expose_secret()
}

impl Secret {
    /// The secret that holds `text`.
    pub fn new(text: String) -> (secret: Self)
        ensures
            secret@ == text@,
    {
        secret_new(text)
    }

    /// The text of the secret.
    pub fn expose(&self) -> (text: &str)
        ensures
            text@ == self@,
    {
        secret_expose(self)
    }
}

} // verus!
