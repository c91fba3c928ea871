//! `FileStore` - an encrypted-file fallback [`VaultStore`].
//!
//! Used when the OS keyring is unavailable. All vault secrets are kept in a
//! single JSON map, encrypted with age (scrypt passphrase) into an armored
//! ASCII file.
//!
//! A store works on the text of its file as it was read. When an operation
//! replaces that text it raises `changed`, and whoever owns the file then
//! writes it back.

use vstd::prelude::*;

use crate::error::Error;
use crate::strmap::StringMap;
use crate::sync::encrypt;
use crate::text;
use crate::vault::error::VaultError;
use crate::vault::secret::VaultSecret;
use crate::vault::store::VaultStore;

verus! {

// ---------------------------------------------------------------------------
// JSON
// ---------------------------------------------------------------------------
/// The string map that `serde_json::from_str` reads from a JSON text; `None`
/// where it refuses the text.
pub uninterp spec fn json_string_map(json: Seq<char>) -> Option<Map<Seq<char>, Seq<char>>>;

/// The keys of a list of string pairs.
pub open spec fn string_keys(pairs: Seq<(String, String)>) -> Seq<Seq<char>> {
    pairs.map_values(|p: (String, String)| p.0@)
}

/// The map from first to second strings of a list of pairs.
pub open spec fn string_pairs(pairs: Seq<(String, String)>) -> Map<Seq<char>, Seq<char>> {
    Map::new(
        |k: Seq<char>| string_keys(pairs).contains(k),
        |k: Seq<char>| pairs[string_keys(pairs).index_of(k)].1@,
    )
}

/// `serde_json::from_str` into a map of strings to strings. The pairs come in
/// no particular order, each key once; a refusal comes as its `Display` text.
#[verifier::external_body]
fn parse_string_map(json: &str) -> (r: Result<Vec<(String, String)>, String>)
    ensures
        match r {
            Ok(pairs) => string_keys(pairs@).no_duplicates() && json_string_map(json@) == Some(
                string_pairs(pairs@),
            ),
            Err(_) => json_string_map(json@) is None,
        },
{
    let map: Result<std::collections::HashMap<String, String>, _> = serde_json::from_str(json);
    map.map(|m| m.into_iter().collect()).map_err(|e| e.to_string())
}

/// `serde_json::to_string` of a map of strings to strings, which has no way to
/// fail: the keys are strings, and no value refuses to be written. Reading the
/// text back gives the map.
#[verifier::external_body]
fn render_string_map(pairs: Vec<(String, String)>) -> (r: Result<String, String>)
    requires
        string_keys(pairs@).no_duplicates(),
    ensures
        r matches Ok(json) ==> json_string_map(json@) == Some(string_pairs(pairs@)),
        r is Ok,
{
    let map: std::collections::HashMap<String, String> = pairs.into_iter().collect();
    serde_json::to_string(&map).map_err(|e| e.to_string())
}

/// `String::from_utf8`: the text that the bytes encode, or a description of
/// why they encode none.
#[verifier::external_body]
pub(crate) fn utf8_text(bytes: Vec<u8>) -> (r: Result<String, String>)
    ensures
        match r {
            Ok(s) => vstd::utf8::valid_utf8(bytes@) && s@ == vstd::utf8::decode_utf8(bytes@),
            Err(_) => !vstd::utf8::valid_utf8(bytes@),
        },
{
    String::from_utf8(bytes).map_err(|e| e.to_string())
}

/// `String::from_utf8` refused the bytes, with this description.
pub closed spec fn utf8_refused(bytes: Vec<u8>, detail: String) -> bool {
    call_ensures(utf8_text, (bytes,), Err(detail))
}

/// A refusal of `String::from_utf8` is one.
pub(crate) proof fn refused_by_utf8(bytes: Vec<u8>, detail: String)
    requires
        call_ensures(utf8_text, (bytes,), Err(detail)),
    ensures
        utf8_refused(bytes, detail),
{
}

/// `serde_json` refused the text, with this description.
pub closed spec fn json_refused(json: Seq<char>, detail: String) -> bool {
    exists|s: &str| s@ == json && #[trigger] call_ensures(parse_string_map, (s,), Err(detail))
}

// ---------------------------------------------------------------------------
// The store
// ---------------------------------------------------------------------------
/// What was found at the path of the store.
pub enum FileImage {
    /// There is no file.
    Absent,
    /// The file could not be read.
    Unreadable(String),
    /// The text of the file.
    Text(String),
}

/// Encrypted-file [`VaultStore`] backend. Holds the store path, the text of the
/// file and the master passphrase.
pub struct FileStore {
    pub path: String,
    pub passphrase: String,
    pub image: FileImage,
    /// Whether the text differs from what was read.
    pub changed: bool,
}

/// The passwords in a decrypted store; `None` where it holds no string map.
pub open spec fn decoded(plaintext: Seq<u8>) -> Option<Map<Seq<char>, Seq<char>>> {
    if vstd::utf8::valid_utf8(plaintext) {
        json_string_map(vstd::utf8::decode_utf8(plaintext))
    } else {
        None
    }
}

/// The passwords in the text of a store file: none in a blank text, and none
/// that can be had from a text that does not open.
pub open spec fn opened(armored: Seq<char>, passphrase: Seq<char>) -> Map<Seq<char>, Seq<char>> {
    if text::trimmed(armored).len() == 0 {
        Map::empty()
    } else {
        match encrypt::age_plaintext(armored, passphrase) {
            Some(plaintext) => match decoded(plaintext) {
                Some(passwords) => passwords,
                None => Map::empty(),
            },
            None => Map::empty(),
        }
    }
}

/// The passwords of a string map.
pub open spec fn string_values(m: Map<Seq<char>, String>) -> Map<Seq<char>, Seq<char>> {
    m.map_values(|s: String| s@)
}

/// The error for a store file at `path`, with a description that starts with
/// `cause`.
pub open spec fn is_file_error(e: Error, at: Seq<char>, cause: Seq<char>) -> bool {
    e matches Error::Vault(VaultError::FileStore { path, message }) && path@ == at && text::starts(
        message@,
        cause,
    )
}

fn file_error(path: &str, cause: &str, detail: &str) -> (e: Error)
    ensures
        is_file_error(e, path@, cause@),
        e matches Error::Vault(VaultError::FileStore { path: at, message }) && at@ == path@
            && message@ == cause@ + detail@,
{
    let message = text::join2(cause, detail);
    assert(message@.subrange(0, cause@.len() as int) =~= cause@);
    Error::Vault(VaultError::FileStore { path: path.to_owned(), message })
}

/// The passwords in a decrypted store.
pub fn decode_store(path: &str, plaintext: Vec<u8>) -> (r: Result<StringMap<String>, Error>)
    ensures
        decode_outcome(path@, plaintext@, r),
        r matches Err(e) ==> (e matches Error::Vault(VaultError::FileStore { path: at, message })
            && if vstd::utf8::valid_utf8(plaintext@) {
            exists|detail: String| #[trigger]
                json_refused(vstd::utf8::decode_utf8(plaintext@), detail) && text::ends(
                    message@,
                    detail@,
                )
        } else {
            exists|detail: String| #[trigger]
                utf8_refused(plaintext, detail) && text::ends(message@, detail@)
        }),
{
    let json = match utf8_text(plaintext) {
        Ok(json) => json,
        Err(detail) => {
            proof {
                assert(utf8_refused(plaintext, detail));
                text::ends_split_the_text(
                    "plaintext is not valid UTF-8: "@ + detail@,
                    detail@,
                );
            }
            return Err(file_error(path, "plaintext is not valid UTF-8: ", detail.as_str()));
        },
    };
    let pairs = match parse_string_map(json.as_str()) {
        Ok(pairs) => pairs,
        Err(detail) => {
            proof {
                assert(json_refused(json@, detail));
                text::ends_split_the_text("decrypted JSON is malformed: "@ + detail@, detail@);
            }
            return Err(file_error(path, "decrypted JSON is malformed: ", detail.as_str()));
        },
    };
    Ok(collect_pairs(&pairs))
}

/// What `decode_store` makes of a decrypted store.
pub open spec fn decode_outcome(
    path: Seq<char>,
    plaintext: Seq<u8>,
    r: Result<StringMap<String>, Error>,
) -> bool {
    match r {
        Ok(map) => decoded(plaintext) == Some(string_values(map@)),
        Err(e) => decode_failure(path, plaintext, e),
    }
}

/// The error for a decrypted store that holds no string map.
pub open spec fn decode_failure(path: Seq<char>, plaintext: Seq<u8>, e: Error) -> bool {
    &&& decoded(plaintext) is None
    &&& is_file_error(
        e,
        path,
        if vstd::utf8::valid_utf8(plaintext) {
            "decrypted JSON is malformed: "@
        } else {
            "plaintext is not valid UTF-8: "@
        },
    )
}

/// The passwords in the outcome of decrypting the store at `path`: a refusal to
/// decrypt is one of the store, any other failure stands.
pub fn decrypted_store(path: &str, decrypted: Result<Vec<u8>, Error>) -> (r: Result<
    StringMap<String>,
    Error,
>)
    ensures
        match decrypted {
            Ok(plaintext) => decode_outcome(path@, plaintext@, r),
            Err(Error::Decrypt(_)) => r matches Err(Error::Vault(VaultError::StoreDecrypt)),
            Err(e) => r == Err::<StringMap<String>, Error>(e),
        },
{
    match decrypted {
        Ok(plaintext) => decode_store(path, plaintext),
        Err(Error::Decrypt(_)) => Err(Error::Vault(VaultError::StoreDecrypt)),
        Err(e) => Err(e),
    }
}

/// A map with the given pairs.
fn collect_pairs(pairs: &Vec<(String, String)>) -> (map: StringMap<String>)
    requires
        string_keys(pairs@).no_duplicates(),
    ensures
        string_values(map@) == string_pairs(pairs@),
{
    let mut map: StringMap<String> = StringMap::new();
    let ghost keys = string_keys(pairs@);
    for i in 0..pairs.len()
        invariant
            keys == string_keys(pairs@),
            keys.no_duplicates(),
            forall|k: Seq<char>|
                map@.contains_key(k) <==> (exists|j: int| 0 <= j < i && keys[j] == k),
            forall|j: int| 0 <= j < i ==> map@[#[trigger] keys[j]]@ == pairs@[j].1@,
    {
        let ghost before = map@;
        map.insert(pairs[i].0.clone(), pairs[i].1.clone());
        assert(keys[i as int] == pairs@[i as int].0@);
        assert forall|k: Seq<char>| map@.contains_key(k) <==> (exists|j: int|
            0 <= j < i + 1 && keys[j] == k) by {
            if before.contains_key(k) {
                let j = choose|j: int| 0 <= j < i && keys[j] == k;
                assert(0 <= j < i + 1 && keys[j] == k);
            }
        }
    }
    assert(string_values(map@) =~= string_pairs(pairs@)) by {
        assert forall|k: Seq<char>| string_values(map@).contains_key(k) <==> string_pairs(
            pairs@,
        ).contains_key(k) by {
            if keys.contains(k) {
                assert(keys[keys.index_of(k)] == k);
            }
        }
        assert forall|k: Seq<char>| string_values(map@).contains_key(k) implies string_values(
            map@,
        )[k] == string_pairs(pairs@)[k] by {
            assert(keys.contains(k));
            assert(keys[keys.index_of(k)] == k);
        }
    }
    map
}

/// The pairs of a map, each key once.
fn pairs_of(map: &StringMap<String>) -> (pairs: Vec<(String, String)>)
    ensures
        string_keys(pairs@).no_duplicates(),
        string_pairs(pairs@) == string_values(map@),
{
    let n: usize = map.len();
    let ghost keys = map.key_seq();
    let mut pairs: Vec<(String, String)> = Vec::new();
    for i in 0..n
        invariant
            n == keys.len(),
            keys == map.key_seq(),
            pairs@.len() == i,
            forall|j: int| 0 <= j < i ==> (#[trigger] pairs@[j]).0@ == keys[j] && pairs@[j].1@
                == map@[keys[j]]@,
    {
        pairs.push((map.key_at(i).clone(), map.value_at(i).clone()));
    }
    proof {
        assert(string_keys(pairs@) =~= keys);
        assert forall|i: int, j: int| 0 <= i < keys.len() && 0 <= j < keys.len() && i != j implies keys[i]
            != keys[j] by {
            if i < j {
                text::text_less_asymmetric(keys[i], keys[j]);
            } else {
                text::text_less_asymmetric(keys[j], keys[i]);
            }
        }
        assert(string_pairs(pairs@) =~= string_values(map@)) by {
            assert forall|k: Seq<char>| string_pairs(pairs@).contains_key(k) implies string_pairs(
                pairs@,
            )[k] == string_values(map@)[k] by {
                assert(keys[keys.index_of(k)] == k);
            }
        }
    }
    pairs
}

impl FileStore {
    /// The master passphrase.
    pub open spec fn secret(&self) -> Seq<char> {
        self.passphrase@
    }

    /// A store backed by `path`, where there is no file yet, unlocked with
    /// `passphrase`.
    #[must_use]
    pub fn new(path: String, passphrase: String) -> (r: Self)
        ensures
            r.path == path,
            r.secret() == passphrase@,
            r.image is Absent,
            !r.changed,
            r.contents() == Map::<Seq<char>, Seq<char>>::empty(),
    {
        FileStore { path, passphrase, image: FileImage::Absent, changed: false }
    }

    /// A store backed by `path`, with what was found there, unlocked with
    /// `passphrase`.
    #[must_use]
    pub fn with_image(path: String, passphrase: String, image: FileImage) -> (r: Self)
        ensures
            r.path == path,
            r.secret() == passphrase@,
            r.image == image,
            !r.changed,
            image is Absent ==> r.contents() == Map::<Seq<char>, Seq<char>>::empty(),
            image matches FileImage::Text(t) ==> r.contents() == opened(t@, passphrase@),
    {
        FileStore { path, passphrase, image, changed: false }
    }

    /// The store file path.
    #[must_use]
    pub fn path(&self) -> (r: &str)
        ensures
            r@ == self.path@,
    {
        self.path.as_str()
    }

    /// The file can be opened: it is missing or blank, or holds a string map under
    /// the passphrase.
    pub open spec fn opens(&self) -> bool {
        match self.image {
            FileImage::Absent => true,
            FileImage::Unreadable(_) => false,
            FileImage::Text(armored) => text::trimmed(armored@).len() == 0
                || (encrypt::age_plaintext(armored@, self.secret()) matches Some(p) && decoded(
                p,
            ) is Some),
        }
    }

    /// There is no file, or it is blank.
    pub open spec fn holds_no_text(&self) -> bool {
        match self.image {
            FileImage::Absent => true,
            FileImage::Unreadable(_) => false,
            FileImage::Text(armored) => text::trimmed(armored@).len() == 0,
        }
    }

    /// The errors with which the file may refuse to open.
    pub open spec fn load_failure(&self, e: Error) -> bool {
        match self.image {
            FileImage::Absent => false,
            FileImage::Unreadable(found) => e matches Error::Vault(
                VaultError::FileStore { path, message },
            ) && path@ == self.path@ && message@ == "read failed: "@ + found@,
            FileImage::Text(armored) => text::trimmed(armored@).len() > 0 && ({
                ||| (e matches Error::Vault(VaultError::StoreDecrypt)) && encrypt::refused(
                    armored@,
                    self.secret(),
                )
                ||| encrypt::age_plaintext(armored@, self.secret()) matches Some(p)
                    && decode_failure(self.path@, p, e)
            }),
        }
    }

    /// Decrypt the file into the vault map.
    ///
    /// A missing or blank file is an empty store (first use); any vault created
    /// afterwards will write a fresh file.
    fn load(&self) -> (r: Result<StringMap<String>, Error>)
        ensures
            match r {
                Ok(map) => self.opens() && string_values(map@) == self.contents(),
                Err(e) => self.load_failure(e) && !e.is_not_found(),
            },
    {
        let armored = match &self.image {
            FileImage::Absent => {
                let map: StringMap<String> = StringMap::new();
                assert(string_values(map@) =~= self.contents());
                return Ok(map);
            },
            FileImage::Unreadable(message) => {
                return Err(file_error(self.path.as_str(), "read failed: ", message.as_str()));
            },
            FileImage::Text(armored) => armored,
        };
        if text::trim(armored.as_str()).as_str().is_empty() {
            let map: StringMap<String> = StringMap::new();
            assert(string_values(map@) =~= self.contents());
            return Ok(map);
        }
        let decrypted = encrypt::decrypt(armored.as_str(), self.passphrase.as_str());
        proof {
            if decrypted is Err {
                assert(encrypt::refused_with(armored@, self.passphrase@, decrypted->Err_0));
            }
        }
        decrypted_store(self.path.as_str(), decrypted)
    }

    /// Take the sealed text as the new text of the file.
    pub fn replace_text(&mut self, sealed: Result<String, Error>) -> (r: Result<(), Error>)
        ensures
            final(self).path == old(self).path,
            final(self).passphrase == old(self).passphrase,
            match sealed {
                Ok(armored) => {
                    &&& r is Ok
                    &&& final(self).image == FileImage::Text(armored)
                    &&& final(self).changed
                },
                Err(e) => r == Err::<(), Error>(e) && *final(self) == *old(self),
            },
    {
        match sealed {
            Ok(armored) => {
                self.image = FileImage::Text(armored);
                self.changed = true;
                Ok(())
            },
            Err(e) => Err(e),
        }
    }

    /// Serialize the map to JSON and age-encrypt it as the new text of the
    /// file.
    fn save(&mut self, map: &StringMap<String>) -> (r: Result<(), Error>)
        ensures
            final(self).path == old(self).path,
            final(self).secret() == old(self).secret(),
            r is Ok,
            final(self).contents() == string_values(map@),
            final(self).opens(),
            final(self).image is Text,
            final(self).changed,
    {
        let json = match render_string_map(pairs_of(map)) {
            Ok(json) => json,
            Err(detail) => {
                return Err(file_error(self.path.as_str(), "serialize failed: ", detail.as_str()));
            },
        };
        let sealed = encrypt::encrypt(json.as_str().as_bytes(), self.passphrase.as_str());
        proof {
            let bytes = vstd::utf8::encode_utf8(json@);
            encrypt::sealed_text_is_not_blank(sealed->Ok_0@, self.passphrase@, bytes);
            vstd::utf8::encode_utf8_valid_utf8(json@);
            vstd::utf8::encode_utf8_decode_utf8(json@);
        }
        self.replace_text(sealed)
    }
}

impl VaultStore for FileStore {
    open spec fn contents(&self) -> Map<Seq<char>, Seq<char>> {
        match self.image {
            FileImage::Text(armored) => opened(armored@, self.passphrase@),
            _ => Map::empty(),
        }
    }

    /// Opening the file rests on the outside.
    open spec fn reliable(&self) -> bool {
        false
    }

    /// The file does not open.
    open spec fn fails_with(&self, e: Error) -> bool {
        self.load_failure(e)
    }

    fn get(&self, vault_id: &str) -> (r: Result<VaultSecret, Error>)
        ensures
            match r {
                Ok(_) => self.opens(),
                Err(e) => if e.is_not_found() {
                    self.opens()
                } else {
                    self.load_failure(e)
                },
            },
            self.holds_no_text() ==> (r matches Err(Error::Vault(VaultError::NotFound(id))) && id@
                == vault_id@),
            self.image is Unreadable ==> (r matches Err(e) && self.load_failure(e)),
    {
        let map = match self.load() {
            Ok(map) => map,
            Err(e) => {
                return Err(e);
            },
        };
        match map.get(vault_id) {
            Some(password) => Ok(VaultSecret::new(password.clone())),
            None => Err(Error::Vault(VaultError::NotFound(vault_id.to_owned()))),
        }
    }

    fn set(&mut self, vault_id: &str, secret: &VaultSecret) -> (r: Result<(), Error>)
        ensures
            final(self).path == old(self).path,
            final(self).secret() == old(self).secret(),
            match r {
                Ok(()) => {
                    &&& old(self).opens() && final(self).opens()
                    &&& final(self).changed && final(self).image is Text
                },
                Err(e) => *final(self) == *old(self) && old(self).load_failure(e),
            },
            old(self).image is Unreadable ==> (r matches Err(e) && old(self).load_failure(e)),
            old(self).holds_no_text() ==> r is Ok,
    {
        let mut map = match self.load() {
            Ok(map) => map,
            Err(e) => {
                return Err(e);
            },
        };
        let ghost loaded = map@;
        map.insert(vault_id.to_owned(), secret.as_str().to_owned());
        assert(string_values(map@) =~= string_values(loaded).insert(vault_id@, secret@));
        match self.save(&map) {
            Ok(()) => {
                assert(old(self).contents().remove(vault_id@) =~= self.contents().remove(
                    vault_id@,
                ));
                Ok(())
            },
            Err(e) => Err(e),
        }
    }

    fn delete(&mut self, vault_id: &str) -> (r: Result<(), Error>)
        ensures
            final(self).path == old(self).path,
            final(self).secret() == old(self).secret(),
            match r {
                Ok(()) => {
                    &&& old(self).opens() && final(self).opens()
                    &&& final(self).changed && final(self).image is Text
                },
                Err(e) => *final(self) == *old(self) && (old(self).load_failure(e) || (old(
                    self,
                ).opens() && e.is_not_found() && !old(self).contents().contains_key(vault_id@))),
            },
            old(self).image is Unreadable ==> (r matches Err(e) && old(self).load_failure(e)),
            old(self).holds_no_text() ==> (r matches Err(Error::Vault(VaultError::NotFound(id)))
                && id@ == vault_id@),
    {
        let mut map = match self.load() {
            Ok(map) => map,
            Err(e) => {
                return Err(e);
            },
        };
        let ghost loaded = map@;
        if map.remove(vault_id) {
            assert(string_values(map@) =~= string_values(loaded).remove(vault_id@));
            match self.save(&map) {
                Ok(()) => {
                    assert(old(self).contents().remove(vault_id@) =~= self.contents().remove(
                        vault_id@,
                    ));
                    Ok(())
                },
                Err(e) => Err(e),
            }
        } else {
            Err(Error::Vault(VaultError::NotFound(vault_id.to_owned())))
        }
    }
}

// ---------------------------------------------------------------------------
// Laws
// ---------------------------------------------------------------------------
/// What is stored lives in the file: two handles with the same text of the file
/// and the same passphrase hold the same passwords, and open alike.
pub proof fn handles_on_one_file_agree(one: FileStore, other: FileStore)
    requires
        one.image == other.image,
        one.secret() == other.secret(),
    ensures
        one.contents() == other.contents(),
        one.opens() == other.opens(),
{
}

/// What a handle wrote is in the file: another handle with the text that the
/// write left and the same passphrase holds the new password and, under every
/// other id, what was there before. A read through it returns that; the one other
/// outcome is that the text asks for more work than the machine is ready to do.
pub proof fn another_handle_reads_what_was_written(
    before: FileStore,
    after: FileStore,
    other: FileStore,
    vault_id: Seq<char>,
    password: Seq<char>,
    asked: Seq<char>,
    written: Result<(), Error>,
    read: Result<VaultSecret, Error>,
)
    requires
        written is Ok,
        crate::vault::store::set_outcome(
            before.contents(),
            after.contents(),
            vault_id,
            password,
            written,
        ),
        after.opens() && after.image is Text,
        other.image == after.image,
        other.secret() == after.secret(),
        crate::vault::store::get_outcome(other.contents(), asked, read),
        read matches Err(e) ==> e.is_not_found() || other.load_failure(e),
    ensures
        other.contents() == before.contents().insert(vault_id, password),
        match read {
            Ok(secret) => if asked == vault_id {
                secret@ == password
            } else {
                before.contents().contains_key(asked) && secret@ == before.contents()[asked]
            },
            Err(e) => {
                ||| e.is_not_found() && asked != vault_id && !before.contents().contains_key(asked)
                ||| (e matches Error::Vault(VaultError::StoreDecrypt)) && encrypt::too_much_work(
                    after.image->Text_0@,
                    after.secret(),
                )
            },
        },
{
}

/// A refusal to decrypt is one of the store, and any other failure stands; what decrypts gives
/// the map that the text holds, and is refused where it holds none.
pub proof fn decrypted_text_gives_its_map(
    path: &str,
    decrypted: Result<Vec<u8>, Error>,
    r: Result<StringMap<String>, Error>,
)
    requires
        call_ensures(decrypted_store, (path, decrypted), r),
    ensures
        decrypted matches Err(e) ==> if e is Decrypt {
            r == Err::<StringMap<String>, Error>(Error::Vault(VaultError::StoreDecrypt))
        } else {
            r == Err::<StringMap<String>, Error>(e)
        },
        decrypted matches Ok(plaintext) ==> {
            &&& !vstd::utf8::valid_utf8(plaintext@) ==> r is Err
            &&& vstd::utf8::valid_utf8(plaintext@) ==> match json_string_map(
                vstd::utf8::decode_utf8(plaintext@),
            ) {
                Some(passwords) => r matches Ok(map) && string_values(map@) == passwords,
                None => r is Err,
            }
        },
        r matches Err(e) ==> !e.is_not_found() || decrypted == Err::<Vec<u8>, Error>(e),
{
}

/// A blank file is an empty store, whatever the passphrase.
pub proof fn blank_file_is_an_empty_store(store: FileStore, found: String)
    requires
        store.image == FileImage::Text(found),
        text::trimmed(found@).len() == 0,
    ensures
        store.opens(),
        store.contents() == Map::<Seq<char>, Seq<char>>::empty(),
{
}

} // verus!
