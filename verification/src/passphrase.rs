//! Secrets.

use vstd::prelude::*;
use vstd::std_specs::cmp::PartialEqSpec;
use vstd::utf8::{encode_utf8, is_ascii_chars, is_ascii_chars_encode_utf8};

verus! {

/// `zeroize::Zeroize::zeroize` on a `String`: overwrites the string's buffer with zeros and leaves
/// the string empty. That the buffer holds zeros afterwards is not part of the contract, as the
/// value of a string says nothing about memory beyond its text.
#[verifier::external_body]
fn wipe(text: &mut String)
    ensures
        final(text)@ == Seq::<char>::empty(),
    opens_invariants none
    no_unwind
{
    zeroize::Zeroize::zeroize(text)
}

/// `core::fmt::Formatter`, where formatted text goes.
#[verifier::external_type_specification]
#[verifier::external_body]
pub struct ExFormatter<'a>(core::fmt::Formatter<'a>);

/// `core::fmt::Error`, which says that text could not be written.
#[verifier::external_type_specification]
#[verifier::external_body]
pub struct ExFormatError(core::fmt::Error);

/// The calls of `write_str` that were made on a formatter, in order: the text that each call
/// handed to the formatter's buffer, whether or not the buffer took it, and whether it did.
pub uninterp spec fn writes(formatter: core::fmt::Formatter<'_>) -> Seq<(Seq<char>, bool)>;

/// `core::fmt::Formatter::write_str`: hands the text to the buffer of the formatter, once, and
/// says by its result whether the buffer took it. That is up to the buffer, so nothing is claimed
/// of which result it is.
#[verifier::external_body]
fn write_text(formatter: &mut core::fmt::Formatter<'_>, text: &str) -> (written: core::fmt::Result)
    ensures
        writes(*final(formatter)) == writes(*old(formatter)).push((text@, written is Ok)),
{
    formatter.write_str(text)
}

/// An owned secret string whose buffer is zeroized when dropped.
///
/// `Passphrase` redacts its `Debug` output and keeps the secret wrapper attached when values
/// are moved or destructured. Use [`expose_secret`](Self::expose_secret) only where plaintext
/// access is required.
///
/// Zeroization reduces the lifetime of stale secret data in memory, but it cannot protect a
/// live value from a debugger, core dump, or copies made for transport to NetworkManager.
/// Cloning creates another independently zeroized secret allocation. Equality comparisons are
/// not constant-time.
#[non_exhaustive]
pub struct Passphrase(String);

impl View for Passphrase {
    type V = Seq<char>;

    closed spec fn view(&self) -> Seq<char> {
        self.0@
    }
}

impl Passphrase {
    /// Wraps an owned secret string.
    #[must_use]
    pub fn new(passphrase: String) -> (wrapped: Self)
        ensures
            wrapped@ == passphrase@,
    {
        Self(passphrase)
    }

    /// Returns the secret length in bytes.
    #[must_use]
    pub fn len(&self) -> (bytes: usize)
        ensures
            bytes == encode_utf8(self@).len(),
    {
        self.0.as_str().as_bytes().len()
    }

    /// Returns `true` when the secret is empty.
    #[must_use]
    pub fn is_empty(&self) -> (empty: bool)
        ensures
            empty == (self@.len() == 0),
    {
        self.0.as_str().is_empty()
    }

    /// Borrows the plaintext secret.
    ///
    /// Keep the borrow short-lived and do not log or persist it. Any copy made from this value
    /// must be cleared separately.
    #[must_use]
    pub fn expose_secret(&self) -> (secret: &str)
        ensures
            secret@ == self@,
    {
        self.0.as_str()
    }
}

impl Drop for Passphrase {
    fn drop(&mut self)
        ensures
            final(self)@ == Seq::<char>::empty(),
        opens_invariants none
        no_unwind
    {
        wipe(&mut self.0);
    }
}

impl zeroize::ZeroizeOnDrop for Passphrase {

}

impl Clone for Passphrase {
    fn clone(&self) -> (copy: Self)
        ensures
            copy@ == self@,
    {
        Self(self.0.clone())
    }
}

impl Default for Passphrase {
    /// The empty secret.
    fn default() -> (secret: Self)
        ensures
            secret@ == Seq::<char>::empty(),
    {
        Self(String::new())
    }
}

impl PartialEq for Passphrase {
    fn eq(&self, other: &Self) -> (same: bool) {
        self.0 == other.0
    }
}

impl vstd::std_specs::cmp::PartialEqSpecImpl for Passphrase {
    open spec fn obeys_eq_spec() -> bool {
        true
    }

    open spec fn eq_spec(&self, other: &Self) -> bool {
        self@ == other@
    }
}

impl Eq for Passphrase {

}

impl core::fmt::Debug for Passphrase {
    /// Hands the formatter one text, which is the same for every secret, and nothing else,
    /// whether or not the formatter takes it.
    fn fmt(&self, formatter: &mut core::fmt::Formatter<'_>) -> (written: core::fmt::Result)
        ensures
            writes(*final(formatter)) == writes(*old(formatter)).push(
                ("Passphrase([REDACTED])"@, written is Ok),
            ),
    {
        write_text(formatter, "Passphrase([REDACTED])")
    }
}

impl From<String> for Passphrase {
    fn from(passphrase: String) -> (wrapped: Self)
        ensures
            wrapped@ == passphrase@,
    {
        Self(passphrase)
    }
}

impl vstd::std_specs::convert::FromSpecImpl<String> for Passphrase {
    open spec fn obeys_from_spec() -> bool {
        true
    }

    closed spec fn from_spec(passphrase: String) -> Self {
        Passphrase(passphrase)
    }
}

impl<'a> From<&'a str> for Passphrase {
    fn from(passphrase: &'a str) -> (wrapped: Self)
        ensures
            wrapped@ == passphrase@,
    {
        Self::new(passphrase.to_owned())
    }
}

/// What `from` makes of a `&str` is said by its own contract: a `String` of the same text is not
/// determined by that text alone.
impl<'a> vstd::std_specs::convert::FromSpecImpl<&'a str> for Passphrase {
    open spec fn obeys_from_spec() -> bool {
        false
    }

    open spec fn from_spec(passphrase: &'a str) -> Self {
        arbitrary()
    }
}

/// Two passphrases are equal exactly if they hold the same secret.
pub proof fn law_equal_exactly_if_the_same_secret(a: Passphrase, b: Passphrase)
    ensures
        Passphrase::obeys_eq_spec(),
        a.eq_spec(&b) <==> a@ == b@,
{
}

/// A secret is empty exactly if it is no bytes long.
pub proof fn law_empty_exactly_if_no_bytes(secret: Seq<char>)
    ensures
        secret.len() == 0 <==> encode_utf8(secret).len() == 0,
{
}

/// An ASCII secret is as many bytes long as it has characters.
pub proof fn law_ascii_length(secret: Seq<char>)
    requires
        is_ascii_chars(secret),
    ensures
        encode_utf8(secret).len() == secret.len(),
{
    is_ascii_chars_encode_utf8(secret);
}

} // verus!
