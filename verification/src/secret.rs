//! Secret texts that never show in diagnostics.

use secrecy::ExposeSecret;
use vstd::prelude::*;

verus! {

/// `SecretString` of the `secrecy` crate, which wipes its memory when dropped
/// and prints as redacted.
#[verifier::external_body]
#[derive(Debug)]
pub struct Concealed {
    inner: secrecy::SecretString,
}

/// The characters that a concealed text holds.
pub uninterp spec fn concealed_chars(text: Concealed) -> Seq<char>;

/// `SecretString::from` of the `secrecy` crate takes a text in; the secret
/// then holds exactly that text.
#[verifier::external_body]
fn conceal(text: String) -> (concealed: Concealed)
    ensures
        concealed_chars(concealed) == text@,
{
    Concealed { inner: secrecy::SecretString::from(text) }
}

/// `ExposeSecret::expose_secret` of the `secrecy` crate lends the text that the
/// secret holds.
#[verifier::external_body]
fn expose(concealed: &Concealed) -> (text: &str)
    ensures
        text@ == concealed_chars(*concealed),
{
    concealed.inner.expose_secret()
}

/// A secret text.
#[derive(Debug)]
pub struct SecretText {
    concealed: Concealed,
}

impl SecretText {
    /// The characters that the secret holds.
    pub closed spec fn chars(self) -> Seq<char> {
        concealed_chars(self.concealed)
    }

    /// A secret that holds a text.
    pub fn new(text: String) -> (secret: SecretText)
        ensures
            secret.chars() == text@,
    {
        SecretText { concealed: conceal(text) }
    }

    /// The text that the secret holds.
    pub fn expose_secret(&self) -> (text: &str)
        ensures
            text@ == self.chars(),
    {
        expose(&self.concealed)
    }
}

} // verus!
