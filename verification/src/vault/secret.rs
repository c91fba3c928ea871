//! `VaultSecret` - a password that wipes its memory when dropped.

use vstd::prelude::*;

use crate::text;

verus! {

/// Text held in a `zeroize::Zeroizing` string, which overwrites its memory when
/// it is dropped.
#[verifier::external_body]
pub struct WipedText {
    text: zeroize::Zeroizing<String>,
}

/// The characters that a wiped text holds.
pub uninterp spec fn wiped_text(held: WipedText) -> Seq<char>;

/// `zeroize::Zeroizing::new` takes the string over as it is.
#[verifier::external_body]
fn wipe_on_drop(s: String) -> (held: WipedText)
    ensures
        wiped_text(held) == s@,
{
    WipedText { text: zeroize::Zeroizing::new(s) }
}

/// `Deref` of `zeroize::Zeroizing` borrows the string that it was made from.
#[verifier::external_body]
fn borrow_wiped(held: &WipedText) -> (s: &str)
    ensures
        s@ == wiped_text(*held),
{
    &held.text
}

/// A password string that wipes its memory on drop.
pub struct VaultSecret {
    text: WipedText,
}

impl VaultSecret {
    /// The password.
    pub closed spec fn view(&self) -> Seq<char> {
        wiped_text(self.text)
    }

    /// Wrap an owned `String`.
    #[must_use]
    pub fn new(s: String) -> (r: Self)
        ensures
            r@ == s@,
    {
        VaultSecret { text: wipe_on_drop(s) }
    }

    /// Borrow the secret as `&str`.
    #[must_use]
    pub fn as_str(&self) -> (r: &str)
        ensures
            r@ == self@,
    {
        borrow_wiped(&self.text)
    }

    /// Length in bytes.
    #[must_use]
    pub fn len(&self) -> (n: usize)
        ensures
            n == vstd::utf8::encode_utf8(self@).len() as usize,
    {
        self.as_str().len()
    }

    /// Whether the secret is empty.
    #[must_use]
    pub fn is_empty(&self) -> (r: bool)
        ensures
            r == (self@.len() == 0),
    {
        self.as_str().is_empty()
    }

    /// The text for diagnostics: the length in bytes, never the password.
    #[must_use]
    pub fn debug_text(&self) -> (r: String)
        ensures
            r@ == secret_debug_text(vstd::utf8::encode_utf8(self@).len() as usize),
    {
        let n = text::decimal_text(self.len() as u64);
        text::join3("VaultSecret { len: ", n.as_str(), " }")
    }
}

/// The diagnostic text of a secret of `len` bytes. It depends on nothing else
/// of the secret.
pub open spec fn secret_debug_text(len: usize) -> Seq<char> {
    "VaultSecret { len: "@ + text::decimal(len as nat) + " }"@
}

/// Two secrets of the same length have the same diagnostic text: it does not
/// tell what the password is.
pub proof fn debug_text_tells_only_the_length(a: VaultSecret, b: VaultSecret)
    requires
        vstd::utf8::encode_utf8(a@).len() == vstd::utf8::encode_utf8(b@).len(),
    ensures
        secret_debug_text(vstd::utf8::encode_utf8(a@).len() as usize) == secret_debug_text(
            vstd::utf8::encode_utf8(b@).len() as usize,
        ),
{
}

/// The diagnostic text tells how many bytes the password has, and is the same for any two
/// passwords of the same length.
pub proof fn diagnostics_do_not_tell_the_password(
    a: &VaultSecret,
    b: &VaultSecret,
    told: String,
    other: String,
)
    requires
        call_ensures(VaultSecret::debug_text, (a,), told),
        call_ensures(VaultSecret::debug_text, (b,), other),
        vstd::utf8::encode_utf8(a@).len() == vstd::utf8::encode_utf8(b@).len(),
    ensures
        told@ == other@,
        text::occurs_in(
            told@,
            text::decimal(vstd::utf8::encode_utf8(a@).len() as usize as nat),
        ),
{
    text::part_occurs(
        "VaultSecret { len: "@,
        text::decimal(vstd::utf8::encode_utf8(a@).len() as usize as nat),
        " }"@,
    );
}

impl Clone for VaultSecret {
    fn clone(&self) -> (r: Self)
        ensures
            r@ == self@,
    {
        VaultSecret::new(self.as_str().to_owned())
    }
}

} // verus!
