//! Secrets held in memory that is wiped when they are dropped.
//!
//! Both types keep their content in a `SecretBox` of the `secrecy`
//! crate. The content leaves the box only through `expose`, so every
//! place where a secret is read in the clear can be found by name.

use secrecy::ExposeSecret;
use secrecy::SecretBox;
use vstd::prelude::*;
use vstd::slice::slice_to_vec;

verus! {

/// A byte string kept in a `SecretBox<[u8]>`.
#[verifier::external_body]
#[derive(Debug)]
pub struct SecretBytes {
    inner: SecretBox<[u8]>,
}

/// The bytes that a [`SecretBytes`] holds.
pub uninterp spec fn secret_bytes(secret: SecretBytes) -> Seq<u8>;

/// `SecretBox::<[u8]>::from(Vec<u8>)`: moves the bytes into a box of
/// exactly that content.
#[verifier::external_body]
fn box_bytes(bytes: Vec<u8>) -> (secret: SecretBytes)
    ensures
        secret_bytes(secret) == bytes@,
{
    SecretBytes { inner: SecretBox::from(bytes) }
}

/// `ExposeSecret::expose_secret` of `SecretBox<[u8]>`: borrows the
/// bytes that the box holds.
#[verifier::external_body]
fn unbox_bytes(secret: &SecretBytes) -> (bytes: &[u8])
    ensures
        bytes@ == secret_bytes(*secret),
{
    secret.inner.expose_secret()
}

impl View for SecretBytes {
    type V = Seq<u8>;

    open spec fn view(&self) -> Seq<u8> {
        secret_bytes(*self)
    }
}

impl SecretBytes {
    /// Moves `bytes` into a secret.
    pub fn new(bytes: Vec<u8>) -> (secret: SecretBytes)
        ensures
            secret@ == bytes@,
    {
        box_bytes(bytes)
    }

    /// Exposes the secret bytes.
    pub fn expose(&self) -> (bytes: &[u8])
        ensures
            bytes@ == self@,
    {
        unbox_bytes(self)
    }
}

impl Clone for SecretBytes {
    fn clone(&self) -> (copy: SecretBytes)
        ensures
            copy@ == self@,
    {
        SecretBytes::new(slice_to_vec(self.expose()))
    }
}

/// A text kept in a `SecretBox<str>`.
#[verifier::external_body]
#[derive(Debug)]
pub struct SecretText {
    inner: SecretBox<str>,
}

/// The text that a [`SecretText`] holds.
pub uninterp spec fn secret_text(secret: SecretText) -> Seq<char>;

/// `SecretBox::<str>::from(String)`: moves the text into a box of
/// exactly that content.
#[verifier::external_body]
fn box_text(text: String) -> (secret: SecretText)
    ensures
        secret_text(secret) == text@,
{
    SecretText { inner: SecretBox::from(text) }
}

/// `ExposeSecret::expose_secret` of `SecretBox<str>`: borrows the
/// text that the box holds.
#[verifier::external_body]
fn unbox_text(secret: &SecretText) -> (text: &str)
    ensures
        text@ == secret_text(*secret),
{
    secret.inner.expose_secret()
}

impl View for SecretText {
    type V = Seq<char>;

    open spec fn view(&self) -> Seq<char> {
        secret_text(*self)
    }
}

impl SecretText {
    /// Moves `text` into a secret.
    pub fn new(text: String) -> (secret: SecretText)
        ensures
            secret@ == text@,
    {
        box_text(text)
    }

    /// Exposes the secret text.
    pub fn expose(&self) -> (text: &str)
        ensures
            text@ == self@,
    {
        unbox_text(self)
    }
}

impl Clone for SecretText {
    fn clone(&self) -> (copy: SecretText)
        ensures
            copy@ == self@,
    {
        SecretText::new(self.expose().to_owned())
    }
}

} // verus!
