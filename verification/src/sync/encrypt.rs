//! age encryption seal box.
//!
//! Functions over the age scrypt passphrase API. Encryption produces armored
//! ASCII (PEM-style) output for git-diff friendliness. Decryption takes that
//! output back.

use vstd::prelude::*;

use crate::error::Error;
use crate::text;

verus! {

/// `age::EncryptError`.
#[verifier::external_type_specification]
#[verifier::external_body]
pub struct ExEncryptError(age::EncryptError);

/// How a decryption failed.
#[derive(Debug)]
pub enum DecryptFailure {
    /// The text asks for more work (`required`) than this machine, which aims at
    /// `target`, is ready to do.
    ExcessiveWork { required: u8, target: u8 },
    /// The text is no age text, is damaged, or was sealed under another
    /// passphrase; the description of the failure.
    Refused(String),
}

impl DecryptFailure {
    /// The description.
    pub open spec fn text(&self) -> Seq<char> {
        match self {
            DecryptFailure::ExcessiveWork { required, target } =>
                "Excessive work parameter for passphrase: "@ + text::decimal(*required as nat)
                    + ", where this machine aims at "@ + text::decimal(*target as nat),
            DecryptFailure::Refused(text) => text@,
        }
    }
}

/// The bytes that `age::decrypt` finds in an age text with a scrypt
/// passphrase, on a machine that is ready to do the work; `None` where it finds
/// none.
pub uninterp spec fn age_plaintext(armored: Seq<char>, passphrase: Seq<char>) -> Option<Seq<u8>>;

/// `age::encrypt_and_armor` with a scrypt recipient, which has no way to fail: a
/// scrypt recipient always wraps the key, it is the only one, and the output is
/// kept in memory. What it returns differs from call to call (salt and nonce are
/// random); whatever it is, it starts with the armor header, and decrypting it
/// with the same passphrase yields the plaintext.
#[verifier::external_body]
fn age_encrypt(plaintext: &[u8], passphrase: &str) -> (r: Result<String, age::EncryptError>)
    ensures
        r matches Ok(armored) ==> age_plaintext(armored@, passphrase@) == Some(plaintext@)
            && text::starts(armored@, armor_header()),
        r is Ok,
{
    let secret = age::secrecy::SecretString::from(passphrase.to_owned());
    let recipient = age::scrypt::Recipient::new(secret);
    age::encrypt_and_armor(&recipient, plaintext)
}

/// `age::decrypt` with a scrypt identity. What it yields on success is a
/// function of the text and the passphrase, and so is a failure, but for one
/// kind: the work that an identity accepts depends on the speed of the machine,
/// so of `ExcessiveWork` nothing is claimed. A refusal comes as its `Display`
/// text, which depends on the language of the system.
#[verifier::external_body]
fn age_decrypt(armored: &str, passphrase: &str) -> (r: Result<Vec<u8>, DecryptFailure>)
    ensures
        decrypt_outcome(armored@, passphrase@, r),
{
    let secret = age::secrecy::SecretString::from(passphrase.to_owned());
    let identity = age::scrypt::Identity::new(secret);
    match age::decrypt(&identity, armored.as_bytes()) {
        Ok(plaintext) => Ok(plaintext),
        Err(age::DecryptError::ExcessiveWork { required, target }) =>
            Err(DecryptFailure::ExcessiveWork { required, target }),
        Err(e) => Err(DecryptFailure::Refused(e.to_string())),
    }
}

/// The `Display` text of an `age::EncryptError`, which depends on the language
/// of the system.
#[verifier::external_body]
fn encrypt_error_text(e: &age::EncryptError) -> String {
    e.to_string()
}

/// The first line of every armored age text.
pub open spec fn armor_header() -> Seq<char> {
    "-----BEGIN AGE ENCRYPTED FILE-----"@
}

/// An armored text with `plaintext` sealed inside under `passphrase`.
pub open spec fn seals(armored: Seq<char>, passphrase: Seq<char>, plaintext: Seq<u8>) -> bool {
    age_plaintext(armored, passphrase) == Some(plaintext) && text::starts(armored, armor_header())
}

/// What a decryption may come to: the bytes that the text holds under the
/// passphrase, a refusal where it holds none, or too much work.
pub open spec fn decrypt_outcome(
    armored: Seq<char>,
    passphrase: Seq<char>,
    r: Result<Vec<u8>, DecryptFailure>,
) -> bool {
    match r {
        Ok(plaintext) => age_plaintext(armored, passphrase) == Some(plaintext@),
        Err(DecryptFailure::Refused(_)) => age_plaintext(armored, passphrase) is None,
        Err(DecryptFailure::ExcessiveWork { .. }) => true,
    }
}

/// `unseal` answered this text under this passphrase with `f`.
pub open spec fn unsealing_failed(
    armored: Seq<char>,
    passphrase: Seq<char>,
    f: DecryptFailure,
) -> bool {
    exists|a: &str, p: &str|
        a@ == armored && p@ == passphrase && #[trigger] call_ensures(unseal, (a, p), Err(f))
}

/// The work that this text asks for was too much for this machine.
pub open spec fn too_much_work(armored: Seq<char>, passphrase: Seq<char>) -> bool {
    exists|f: DecryptFailure|
        f is ExcessiveWork && #[trigger] unsealing_failed(armored, passphrase, f)
}

/// `decrypt` answers this text under this passphrase with `e`: there is nothing
/// to be found in it, or it was too much work.
pub open spec fn refused_with(armored: Seq<char>, passphrase: Seq<char>, e: Error) -> bool {
    &&& age_plaintext(armored, passphrase) is None || too_much_work(armored, passphrase)
    &&& exists|f: DecryptFailure| #[trigger]
        unsealing_failed(armored, passphrase, f) && (e matches Error::Decrypt(text) && text@
            == f.text())
}

/// `decrypt` refuses this text under this passphrase.
pub open spec fn refused(armored: Seq<char>, passphrase: Seq<char>) -> bool {
    exists|e: Error| #[trigger] refused_with(armored, passphrase, e)
}

/// Encrypt `plaintext` with `passphrase`, returning armored ASCII.
pub fn encrypt(plaintext: &[u8], passphrase: &str) -> (r: Result<String, Error>)
    ensures
        r matches Ok(armored) && seals(armored@, passphrase@, plaintext@),
{
    match age_encrypt(plaintext, passphrase) {
        Ok(armored) => Ok(armored),
        Err(e) => Err(Error::Encrypt(encrypt_error_text(&e))),
    }
}

/// `age` itself answered so.
pub closed spec fn age_answered(
    armored: &str,
    passphrase: &str,
    r: Result<Vec<u8>, DecryptFailure>,
) -> bool {
    call_ensures(age_decrypt, (armored, passphrase), r)
}

/// Open armored `armored` with `passphrase`, telling a text that holds nothing
/// under it from one that is too much work.
pub fn unseal(armored: &str, passphrase: &str) -> (r: Result<Vec<u8>, DecryptFailure>)
    ensures
        decrypt_outcome(armored@, passphrase@, r),
        age_answered(armored, passphrase, r),
{
    age_decrypt(armored, passphrase)
}

/// The error of a decryption that failed.
pub fn decrypt_error(failure: DecryptFailure) -> (e: Error)
    ensures
        e matches Error::Decrypt(text) && text@ == failure.text(),
{
    match failure {
        DecryptFailure::ExcessiveWork { required, target } => {
            let asked = text::decimal_text(required as u64);
            let aimed = text::decimal_text(target as u64);
            let mut out = text::join3(
                "Excessive work parameter for passphrase: ",
                asked.as_str(),
                ", where this machine aims at ",
            );
            out.append(aimed.as_str());
            Error::Decrypt(out)
        },
        DecryptFailure::Refused(text) => Error::Decrypt(text),
    }
}

/// Decrypt armored `armored` with `passphrase`.
pub fn decrypt(armored: &str, passphrase: &str) -> (r: Result<Vec<u8>, Error>)
    ensures
        match r {
            Ok(plaintext) => age_plaintext(armored@, passphrase@) == Some(plaintext@),
            Err(e) => refused_with(armored@, passphrase@, e),
        },
{
    let opened = unseal(armored, passphrase);
    proof {
        if opened is Err {
            assert(unsealing_failed(armored@, passphrase@, opened->Err_0));
        }
    }
    match opened {
        Ok(plaintext) => Ok(plaintext),
        Err(failure) => Err(decrypt_error(failure)),
    }
}

/// Nothing but `age` refuses: every answer is one that `age` gave to this text under
/// this passphrase, too much work included. What it finds is what the text holds,
/// and where it says that the text holds nothing, it does not.
pub proof fn answers_are_those_of_age(
    armored: &str,
    passphrase: &str,
    opened: Result<Vec<u8>, DecryptFailure>,
)
    requires
        call_ensures(unseal, (armored, passphrase), opened),
    ensures
        age_answered(armored, passphrase, opened),
        match opened {
            Ok(plaintext) => age_plaintext(armored@, passphrase@) == Some(plaintext@),
            Err(DecryptFailure::Refused(_)) => age_plaintext(armored@, passphrase@) is None,
            Err(DecryptFailure::ExcessiveWork { .. }) => true,
        },
{
}

/// The error of a decryption tells what `age` answered.
pub proof fn errors_tell_what_age_answered(
    armored: &str,
    passphrase: &str,
    r: Result<Vec<u8>, Error>,
)
    requires
        call_ensures(decrypt, (armored, passphrase), r),
    ensures
        match r {
            Ok(plaintext) => age_plaintext(armored@, passphrase@) == Some(plaintext@),
            Err(e) => exists|a: &str, p: &str, f: DecryptFailure|
                a@ == armored@ && p@ == passphrase@ && #[trigger] age_answered(a, p, Err(f)) && (
                e matches Error::Decrypt(text) && text@ == f.text()),
        },
{
    if let Err(e) = r {
        let f = choose|f: DecryptFailure| #[trigger]
            unsealing_failed(armored@, passphrase@, f) && (e matches Error::Decrypt(text) && text@
                == f.text());
        let (a, p) = choose|a: &str, p: &str|
            a@ == armored@ && p@ == passphrase@ && #[trigger] call_ensures(unseal, (a, p), Err(f));
        assert(age_answered(a, p, Err(f)));
    }
}

/// The text of a failure is age's own where it refused, and names both numbers where
/// the work was too much.
pub proof fn failure_text_tells_the_cause(f: DecryptFailure)
    ensures
        match f {
            DecryptFailure::Refused(cause) => f.text() == cause@,
            DecryptFailure::ExcessiveWork { required, target } => {
                &&& text::occurs_in(f.text(), text::decimal(required as nat))
                &&& text::ends(f.text(), text::decimal(target as nat))
            },
        },
{
    if let DecryptFailure::ExcessiveWork { required, target } = f {
        let asked = text::decimal(required as nat);
        let aimed = text::decimal(target as nat);
        let head = "Excessive work parameter for passphrase: "@;
        let tail = ", where this machine aims at "@ + aimed;
        assert(f.text() =~= head + asked + tail);
        text::part_occurs(head, asked, tail);
        assert(f.text() =~= (head + asked + ", where this machine aims at "@) + aimed);
        text::ends_split_the_text(f.text(), aimed);
    }
}

/// A sealed text opens: what comes out of it, with the same passphrase, is what
/// went in. The one way for it not to open is that it asks for more work than the
/// machine is ready to do.
pub proof fn sealed_text_opens(
    armored: Seq<char>,
    passphrase: Seq<char>,
    plaintext: Seq<u8>,
    opened: Result<Vec<u8>, DecryptFailure>,
)
    requires
        seals(armored, passphrase, plaintext),
        decrypt_outcome(armored, passphrase, opened),
    ensures
        match opened {
            Ok(found) => found@ == plaintext,
            Err(failure) => failure is ExcessiveWork,
        },
{
}

/// A sealed text is not blank.
pub proof fn sealed_text_is_not_blank(
    armored: Seq<char>,
    passphrase: Seq<char>,
    plaintext: Seq<u8>,
)
    requires
        seals(armored, passphrase, plaintext),
    ensures
        text::trimmed(armored).len() > 0,
{
    reveal_strlit("-----BEGIN AGE ENCRYPTED FILE-----");
    let header = armor_header();
    assert(armored.subrange(0, header.len() as int)[0] == header[0]);
    text::visible_start_not_blank(armored);
}

} // verus!
