//! `WebDavBackend` - sync via WebDAV HTTP.
//!
//! `exists` is a GET (probe), `push` a PUT, `pull` a GET. Auth is HTTP Basic with
//! credentials stored in the keyring under service `avpm-webdav`. The `url` is a
//! directory; the blob filename is fixed `vault.age`.
//!
//! Error precision: a network/auth failure surfaces as `Err` (never faked as
//! "absent"), while an HTTP 404 yields `Ok(false)` / `RemoteNotFound`. The
//! read-merge-write engine relies on this to distinguish "remote empty" from
//! "can't reach remote".

use vstd::prelude::*;

use crate::config::WebDavConfig;
use crate::error::Error;
use crate::sync::error::{SyncBackendError, SyncError};
use crate::text;
use crate::vault::keyring::KeyringStore;
use crate::vault::secret::VaultSecret;
use crate::vault::store::VaultStore;

verus! {

/// Keyring service of the WebDAV credentials.
pub const WEBDAV_SERVICE: &'static str = "avpm-webdav";

/// Keyring user name of the WebDAV credentials.
pub const WEBDAV_USER: &'static str = "default";

/// File name of the blob.
pub const BLOB_NAME: &'static str = "vault.age";

/// WebDAV-backed sync transport.
pub struct WebDavBackend {
    pub base_url: String,
    pub username: String,
    /// Where the password is kept.
    pub cred_store: KeyringStore,
    /// When set (non-keyring environments), used instead of the keyring.
    pub password_override: Option<String>,
}

/// A directory URL with exactly what it has, ending in a slash.
pub open spec fn dir_url(url: Seq<char>) -> Seq<char> {
    if text::ends(url, "/"@) {
        url
    } else {
        url + "/"@
    }
}

/// A directory URL, ending in a slash.
pub fn normalize_dir_url(url: &str) -> (r: String)
    ensures
        r@ == dir_url(url@),
{
    if text::ends_with(url, "/") {
        url.to_owned()
    } else {
        text::join2(url, "/")
    }
}

/// Normalizing a URL a second time changes nothing.
pub proof fn normalized_url_is_stable(url: Seq<char>)
    ensures
        text::ends(dir_url(url), "/"@),
        dir_url(dir_url(url)) == dir_url(url),
{
    if !text::ends(url, "/"@) {
        let whole = url + "/"@;
        assert(whole.subrange(whole.len() - "/"@.len(), whole.len() as int) =~= "/"@);
    }
}

/// A normalized URL is the URL itself, with one slash added where it does not end in
/// one.
pub proof fn normalizing_adds_at_most_a_slash(url: Seq<char>)
    ensures
        url.len() > 0 && url.last() == '/' ==> dir_url(url) == url,
        url.len() == 0 || url.last() != '/' ==> dir_url(url) == url.push('/'),
{
    reveal_strlit("/");
    if url.len() > 0 && url.last() == '/' {
        assert(url.subrange(url.len() - 1, url.len() as int) =~= "/"@);
    } else {
        if text::ends(url, "/"@) {
            assert(url.subrange(url.len() - 1, url.len() as int)[0] == "/"@[0]);
        }
        assert(url + "/"@ =~= url.push('/'));
    }
}

/// Whether a password is at hand or has to be asked for.
#[derive(Debug, Clone, Copy, PartialEq, Eq, Structural)]
pub enum PasswordNeed {
    AtHand,
    Prompt,
}

impl WebDavBackend {
    /// Build a backend. The password is resolved from the keyring on each
    /// operation.
    #[must_use]
    pub fn new(cfg: &WebDavConfig) -> (r: Self)
        ensures
            r.base_url@ == dir_url(cfg.url@),
            r.username@ == cfg.username@,
            r.cred_store.service@ == WEBDAV_SERVICE@,
            r.password_override is None,
    {
        WebDavBackend {
            base_url: normalize_dir_url(cfg.url.as_str()),
            username: cfg.username.clone(),
            cred_store: KeyringStore::new(WEBDAV_SERVICE.to_owned()),
            password_override: None,
        }
    }

    /// Build a backend with an inline password, bypassing the keyring.
    #[must_use]
    pub fn new_with_password(cfg: &WebDavConfig, password: String) -> (r: Self)
        ensures
            r.base_url@ == dir_url(cfg.url@),
            r.username@ == cfg.username@,
            r.cred_store.service@ == WEBDAV_SERVICE@,
            r.password_override == Some(password),
    {
        WebDavBackend {
            base_url: normalize_dir_url(cfg.url.as_str()),
            username: cfg.username.clone(),
            cred_store: KeyringStore::new(WEBDAV_SERVICE.to_owned()),
            password_override: Some(password),
        }
    }

    /// Whether the WebDAV password has to be asked for: it does where there is
    /// no inline one and `store` (the store of the credentials) has none. A
    /// failure to find out is passed on.
    pub fn ensure_password<S: VaultStore>(&self, store: &S) -> (r: Result<PasswordNeed, Error>)
        ensures
            match r {
                Ok(PasswordNeed::AtHand) => self.password_override is Some
                    || store.contents().contains_key(WEBDAV_USER@),
                Ok(PasswordNeed::Prompt) => self.password_override is None
                    && !store.contents().contains_key(WEBDAV_USER@),
                Err(e) => {
                    &&& self.password_override is None && !store.reliable() && !e.is_not_found()
                    &&& call_ensures(S::get, (store, WEBDAV_USER), Err(e))
                },
            },
    {
        if self.password_override.is_some() {
            return Ok(PasswordNeed::AtHand);
        }
        match store.get(WEBDAV_USER) {
            Ok(_) => Ok(PasswordNeed::AtHand),
            Err(e) => {
                if e.not_found() {
                    Ok(PasswordNeed::Prompt)
                } else {
                    Err(e)
                }
            },
        }
    }

    /// Keep the password that was asked for.
    pub fn keep_password<S: VaultStore>(&self, store: &mut S, secret: &VaultSecret) -> (r: Result<
        (),
        Error,
    >)
        ensures
            crate::vault::store::set_outcome(
                old(store).contents(),
                final(store).contents(),
                WEBDAV_USER@,
                secret@,
                r,
            ),
            r matches Err(e) ==> old(store).fails_with(e),
            old(store).reliable() ==> r is Ok && final(store).reliable(),
    {
        store.set(WEBDAV_USER, secret)
    }

    /// The password: the inline one, or the one that `store` has.
    pub fn password<S: VaultStore>(&self, store: &S) -> (r: Result<String, Error>)
        ensures
            match self.password_override {
                Some(inline) => r matches Ok(password) && password@ == inline@,
                None => match r {
                    Ok(password) => store.contents().contains_key(WEBDAV_USER@) && password@
                        == store.contents()[WEBDAV_USER@],
                    Err(e) => {
                        &&& e.is_not_found() || store.reliable() ==> !store.contents().contains_key(
                            WEBDAV_USER@,
                        )
                        &&& call_ensures(S::get, (store, WEBDAV_USER), Err(e))
                    },
                },
            },
    {
        match &self.password_override {
            Some(inline) => Ok(inline.clone()),
            None => match store.get(WEBDAV_USER) {
                Ok(secret) => Ok(secret.as_str().to_owned()),
                Err(e) => Err(e),
            },
        }
    }
}

/// A password that is at hand can be had: the inline one where there is one, else the one
/// that the store of the credentials has; and one has to be asked for where neither is.
pub proof fn password_at_hand_can_be_had<S: VaultStore>(
    backend: &WebDavBackend,
    store: &S,
    need: Result<PasswordNeed, Error>,
    r: Result<String, Error>,
)
    requires
        call_ensures(WebDavBackend::ensure_password::<S>, (backend, store), need),
        call_ensures(WebDavBackend::password::<S>, (backend, store), r),
        store.reliable(),
    ensures
        need is Ok,
        need == Ok::<PasswordNeed, Error>(PasswordNeed::AtHand) <==> r is Ok,
        r matches Ok(password) ==> match backend.password_override {
            Some(inline) => password@ == inline@,
            None => store.contents().contains_key("default"@) && password@
                == store.contents()["default"@],
        },
{
}

/// A failed WebDAV request, with the description of the failure.
pub fn webdav_err(message: &str) -> (e: Error)
    ensures
        is_webdav_error(e, message@),
{
    Error::Sync(SyncError::Backend(SyncBackendError::WebDav(message.to_owned())))
}

/// The error of a failed WebDAV request.
pub open spec fn is_webdav_error(e: Error, text: Seq<char>) -> bool {
    e matches Error::Sync(SyncError::Backend(SyncBackendError::WebDav(message))) && message@
        == text
}

/// An HTTP status says success.
pub open spec fn is_success(status: u16) -> bool {
    200 <= status < 300
}

/// What the status of a pull means; `shown` is how the status is written.
pub fn pull_status(status: u16, shown: &str) -> (r: Result<(), Error>)
    ensures
        match r {
            Ok(()) => is_success(status),
            Err(e) => !is_success(status) && if status == 404 {
                e == Error::Sync(SyncError::Backend(SyncBackendError::RemoteNotFound))
            } else {
                is_webdav_error(e, "GET returned "@ + shown@)
            },
        },
{
    if status == 404 {
        return Err(Error::Sync(SyncError::Backend(SyncBackendError::RemoteNotFound)));
    }
    if status < 200 || status >= 300 {
        let message = text::join2("GET returned ", shown);
        return Err(webdav_err(message.as_str()));
    }
    Ok(())
}

/// A probe says what a pull would find: the blob is there where a pull succeeds with
/// any status of success, absent where it finds a 404, and the probe fails where the
/// pull fails otherwise.
pub proof fn probe_says_what_a_pull_finds(
    status: u16,
    shown: &str,
    pulled: Result<(), Error>,
    probed: Result<bool, Error>,
)
    requires
        call_ensures(pull_status, (status, shown), pulled),
        call_ensures(exists_status, (status, shown), probed),
    ensures
        pulled is Ok <==> 200 <= status <= 299,
        probed == Ok::<bool, Error>(true) <==> 200 <= status <= 299,
        probed == Ok::<bool, Error>(false) <==> status == 404,
        status == 404 <==> pulled == Err::<(), Error>(
            Error::Sync(SyncError::Backend(SyncBackendError::RemoteNotFound)),
        ),
        probed matches Err(e) ==> (e matches Error::Sync(
            SyncError::Backend(SyncBackendError::WebDav(message)),
        ) && text::ends(message@, shown@)),
        pulled matches Err(e) ==> (status != 404 ==> (e matches Error::Sync(
            SyncError::Backend(SyncBackendError::WebDav(message)),
        ) && text::ends(message@, shown@))),
{
    text::ends_split_the_text("GET returned "@ + shown@, shown@);
}

/// What the status of a probe means: only a 404 says that the blob is absent.
pub fn exists_status(status: u16, shown: &str) -> (r: Result<bool, Error>)
    ensures
        match r {
            Ok(found) => found == is_success(status) && (found || status == 404),
            Err(e) => !is_success(status) && status != 404 && is_webdav_error(
                e,
                "GET returned "@ + shown@,
            ),
        },
{
    match pull_status(status, shown) {
        Ok(()) => Ok(true),
        Err(e) => {
            if status == 404 {
                Ok(false)
            } else {
                Err(e)
            }
        },
    }
}

} // verus!
