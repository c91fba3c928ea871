//! Configuration.
//!
//! Loaded from a single optional TOML file. A missing file, section or value
//! has a default; only `sync` requires configuration.

use vstd::prelude::*;

use crate::error::Error;
use crate::paths;
use crate::text;

verus! {

/// Configuration errors.
#[derive(Debug)]
pub enum ConfigError {
    /// The file at `path` could not be read or understood.
    Load { path: String, message: String },
    /// The contents are not acceptable.
    Invalid(String),
}

impl ConfigError {
    /// The user-facing text.
    pub open spec fn text(&self) -> Seq<char> {
        match self {
            ConfigError::Load { path, message } => "failed to load config from "@ + path@ + ": "@
                + message@,
            ConfigError::Invalid(message) => "invalid config: "@ + message@,
        }
    }

    /// The user-facing text.
    pub fn message(&self) -> (r: String)
        ensures
            r@ == self.text(),
    {
        match self {
            ConfigError::Load { path, message } => {
                let mut out = text::join3("failed to load config from ", path.as_str(), ": ");
                out.append(message.as_str());
                out
            },
            ConfigError::Invalid(message) => text::join2("invalid config: ", message.as_str()),
        }
    }
}

// ---------------------------------------------------------------------------
// TOML values
// ---------------------------------------------------------------------------
/// The top-level keys of a TOML text, in order, as the `config` crate reads it;
/// `None` where the text is refused.
pub uninterp spec fn toml_keys(toml: Seq<char>) -> Option<Seq<Seq<char>>>;

/// The keys of the table at `key` of a TOML text, in order, as the `config` crate
/// reads it, if there is something; `None` where that is no table.
pub uninterp spec fn toml_table(toml: Seq<char>, key: Seq<char>) -> Option<Option<Seq<Seq<char>>>>;

/// The length of the array at `key` of a TOML text as the `config` crate reads it,
/// if there is something; `None` where that is no array.
pub uninterp spec fn toml_array(toml: Seq<char>, key: Seq<char>) -> Option<Option<nat>>;

/// The string at `key` of a TOML text as the `config` crate reads it, if there is
/// something; `None` where that is no string.
pub uninterp spec fn toml_string(toml: Seq<char>, key: Seq<char>) -> Option<Option<Seq<char>>>;

/// The 16-bit number at `key` of a TOML text as the `config` crate reads it, if
/// there is something; `None` where that is no such number.
pub uninterp spec fn toml_u16(toml: Seq<char>, key: Seq<char>) -> Option<Option<u16>>;

/// A string that may be absent.
pub open spec fn optional_string(s: Option<String>) -> Option<Seq<char>> {
    match s {
        Some(text) => Some(text@),
        None => None,
    }
}

/// A list of keys that may be absent.
pub open spec fn optional_keys(keys: Option<Vec<String>>) -> Option<Seq<Seq<char>>> {
    match keys {
        Some(keys) => Some(text::views(keys@)),
        None => None,
    }
}

/// How many levels a key may lead down: as many as a TOML text may be deep.
pub const MAX_DEPTH: usize = 80;

/// The dots in a key.
pub open spec fn dots(key: Seq<char>) -> nat
    decreases key.len(),
{
    if key.len() == 0 {
        0
    } else {
        dots(key.drop_last()) + if key.last() == '.' {
            1nat
        } else {
            0nat
        }
    }
}

/// The dots of a key are counted one by one, whatever stands between them.
pub proof fn every_dot_counts(a: Seq<char>, b: Seq<char>)
    ensures
        dots(a + b) == dots(a) + dots(b),
        dots(seq!['.']) == 1,
        (forall|i: int| 0 <= i < a.len() ==> #[trigger] a[i] != '.') ==> dots(a) == 0,
    decreases a.len() + b.len(),
{
    reveal_with_fuel(dots, 2);
    assert(seq!['.'].drop_last() =~= Seq::<char>::empty());
    if b.len() > 0 {
        every_dot_counts(a, b.drop_last());
        assert((a + b).drop_last() =~= a + b.drop_last());
        assert((a + b).last() == b.last());
    } else {
        assert(a + b =~= a);
        if a.len() > 0 {
            every_dot_counts(a.drop_last(), b);
            assert forall|i: int| 0 <= i < a.len() - 1 implies #[trigger] a.drop_last()[i] == a[i] by {}
            assert(a.last() == a[a.len() - 1]);
        }
    }
}

/// A top-level key that the `config` crate may take for a path too far to follow:
/// one with an index, which asks for an array of any length, or one that leads
/// down any number of levels.
pub open spec fn far_key(key: Seq<char>) -> bool {
    key.contains('[') || dots(key) > MAX_DEPTH
}

/// A TOML text without such keys.
pub open spec fn within_reach(toml: Seq<char>) -> bool {
    toml_keys(toml) matches Some(keys) && forall|i: int|
        0 <= i < keys.len() ==> !far_key(#[trigger] keys[i])
}

/// `config::File::collect` of a TOML text: its top-level keys, before any is taken
/// for a path. A refusal comes as its `Display` text.
#[verifier::external_body]
fn read_keys(toml: &str) -> (r: Result<Vec<String>, String>)
    ensures
        match r {
            Ok(keys) => toml_keys(toml@) == Some(text::views(keys@)),
            Err(_) => toml_keys(toml@) is None,
        },
{
    let source = ::config::File::from_str(toml, ::config::FileFormat::Toml);
    match ::config::Source::collect(&source) {
        Ok(values) => Ok(values.into_keys().collect()),
        Err(e) => Err(e.to_string()),
    }
}

/// `config::Config::get_table` on a configuration built from a TOML text: the keys
/// of the table. A refusal comes as its `Display` text.
#[verifier::external_body]
fn read_table(toml: &str, key: &str) -> (r: Result<Option<Vec<String>>, String>)
    requires
        within_reach(toml@),
    ensures
        match r {
            Ok(keys) => toml_table(toml@, key@) == Some(optional_keys(keys)),
            Err(_) => toml_table(toml@, key@) is None,
        },
{
    let source = ::config::File::from_str(toml, ::config::FileFormat::Toml);
    let built = ::config::Config::builder().add_source(source).build();
    match built.and_then(|values| values.get_table(key)) {
        Ok(table) => Ok(Some(table.into_keys().collect())),
        Err(::config::ConfigError::NotFound(_)) => Ok(None),
        Err(e) => Err(e.to_string()),
    }
}

/// `config::Config::get_array` on a configuration built from a TOML text: the
/// length of the array. A refusal comes as its `Display` text.
#[verifier::external_body]
fn read_array(toml: &str, key: &str) -> (r: Result<Option<usize>, String>)
    requires
        within_reach(toml@),
    ensures
        match r {
            Ok(Some(n)) => toml_array(toml@, key@) == Some(Some(n as nat)),
            Ok(None) => toml_array(toml@, key@) == Some(None::<nat>),
            Err(_) => toml_array(toml@, key@) is None,
        },
{
    let source = ::config::File::from_str(toml, ::config::FileFormat::Toml);
    let built = ::config::Config::builder().add_source(source).build();
    match built.and_then(|values| values.get_array(key)) {
        Ok(array) => Ok(Some(array.len())),
        Err(::config::ConfigError::NotFound(_)) => Ok(None),
        Err(e) => Err(e.to_string()),
    }
}

/// `config::Config::get_string` on a configuration built from a TOML text. A
/// refusal comes as its `Display` text.
#[verifier::external_body]
fn read_string(toml: &str, key: &str) -> (r: Result<Option<String>, String>)
    requires
        within_reach(toml@),
    ensures
        match r {
            Ok(value) => toml_string(toml@, key@) == Some(optional_string(value)),
            Err(_) => toml_string(toml@, key@) is None,
        },
{
    let source = ::config::File::from_str(toml, ::config::FileFormat::Toml);
    let built = ::config::Config::builder().add_source(source).build();
    match built.and_then(|values| values.get_string(key)) {
        Ok(value) => Ok(Some(value)),
        Err(::config::ConfigError::NotFound(_)) => Ok(None),
        Err(e) => Err(e.to_string()),
    }
}

/// `config::Config::get` of a `u16` on a configuration built from a TOML text. A
/// refusal comes as its `Display` text.
#[verifier::external_body]
fn read_u16(toml: &str, key: &str) -> (r: Result<Option<u16>, String>)
    requires
        within_reach(toml@),
    ensures
        match r {
            Ok(value) => toml_u16(toml@, key@) == Some(value),
            Err(_) => toml_u16(toml@, key@) is None,
        },
{
    let source = ::config::File::from_str(toml, ::config::FileFormat::Toml);
    let built = ::config::Config::builder().add_source(source).build();
    match built.and_then(|values| values.get::<u16>(key)) {
        Ok(value) => Ok(Some(value)),
        Err(::config::ConfigError::NotFound(_)) => Ok(None),
        Err(e) => Err(e.to_string()),
    }
}

/// The `config` crate said `message` of something that it was asked of a TOML text.
pub closed spec fn said_of(toml: &str, message: String) -> bool {
    ||| call_ensures(read_keys, (toml,), Err(message))
    ||| exists|key: &str| #[trigger] call_ensures(read_table, (toml, key), Err(message))
    ||| exists|key: &str| #[trigger] call_ensures(read_string, (toml, key), Err(message))
    ||| exists|key: &str| #[trigger] call_ensures(read_u16, (toml, key), Err(message))
}

/// Whether a top-level key may lead too far.
fn leads_far(key: &str) -> (r: bool)
    ensures
        r == far_key(key@),
{
    let chars = text::chars_of(key);
    let mut n: usize = 0;
    for i in 0..chars.len()
        invariant
            chars@ == key@,
            n == dots(key@.take(i as int)),
            n <= i,
            forall|j: int| 0 <= j < i ==> key@[j] != '[',
    {
        assert(key@.take(i + 1).drop_last() =~= key@.take(i as int));
        if chars[i] == '[' {
            assert(key@[i as int] == '[');
            return true;
        }
        if chars[i] == '.' {
            n = n + 1;
        }
    }
    assert(key@.take(key@.len() as int) =~= key@);
    n > MAX_DEPTH
}

/// What is said of a top-level key that may lead too far.
pub open spec fn far_key_text(key: Seq<char>) -> Seq<char> {
    "key `"@ + key + "` has an index or leads too far down"@
}

/// The first of the top-level keys that may lead too far.
fn first_far_key(keys: &Vec<String>) -> (r: Option<usize>)
    ensures
        match r {
            Some(p) => p < keys@.len() && far_key(keys@[p as int]@) && (forall|j: int|
                0 <= j < p ==> !far_key((#[trigger] keys@[j])@)),
            None => forall|j: int| 0 <= j < keys@.len() ==> !far_key((#[trigger] keys@[j])@),
        },
{
    for i in 0..keys.len()
        invariant
            forall|j: int| 0 <= j < i ==> !far_key((#[trigger] keys@[j])@),
    {
        if leads_far(keys[i].as_str()) {
            return Some(i);
        }
    }
    None
}

// ---------------------------------------------------------------------------
// Sections
// ---------------------------------------------------------------------------
/// `[default]` section.
#[derive(Debug, PartialEq)]
pub struct DefaultConfig {
    pub service: String,
}

/// Storage backend selector.
///
/// - `auto` (default): try the OS keyring first; if unavailable fall back to the
///   encrypted file store.
/// - `keyring`: force the OS keyring; fail if unavailable.
/// - `file`: force the encrypted file store.
#[derive(Debug, Clone, Copy, PartialEq, Eq, Structural)]
pub enum StorageBackend {
    Auto,
    Keyring,
    File,
}

/// `[storage]` section. Selects where vault secrets are kept.
#[derive(Debug, Clone, Copy, PartialEq, Eq, Structural)]
pub struct StorageConfig {
    pub backend: StorageBackend,
}

/// `[clipboard]` section. Controls auto-clear of copied passwords.
/// `clear_seconds = 0` disables auto-clear.
#[derive(Debug, Clone, Copy, PartialEq, Eq, Structural)]
pub struct ClipboardConfig {
    pub clear_seconds: u16,
}

/// Sync backend selector.
#[derive(Debug, Clone, Copy, PartialEq, Eq, Structural)]
pub enum BackendKind {
    Git,
    WebDav,
}

/// `[sync.git]` section.
#[derive(Debug, PartialEq)]
pub struct GitConfig {
    pub remote: String,
    pub path: String,
    /// Remote branch to push/pull (default `main`).
    pub branch: String,
}

/// `[sync.webdav]` section. The password is **never** stored here; it lives in
/// the keyring under service `avpm-webdav`.
#[derive(Debug, PartialEq)]
pub struct WebDavConfig {
    pub url: String,
    pub username: String,
}

/// `[sync]` section.
#[derive(Debug, PartialEq)]
pub struct SyncConfig {
    pub backend: BackendKind,
    pub git: Option<GitConfig>,
    pub webdav: Option<WebDavConfig>,
}

/// Top-level config.
#[derive(Debug, PartialEq)]
pub struct Config {
    pub default: DefaultConfig,
    pub storage: StorageConfig,
    pub clipboard: ClipboardConfig,
    pub sync: Option<SyncConfig>,
}

/// Default keyring service name.
pub const DEFAULT_SERVICE: &'static str = "avpm";

/// Default clipboard auto-clear window (seconds).
pub const DEFAULT_CLEAR_SECONDS: u16 = 45;

/// Default file name of the blob in the git repository.
pub const DEFAULT_GIT_PATH: &'static str = "vault.age";

/// Default branch of the git repository.
pub const DEFAULT_GIT_BRANCH: &'static str = "main";

impl Default for DefaultConfig {
    fn default() -> (r: Self)
        ensures
            r.service@ == DEFAULT_SERVICE@,
    {
        DefaultConfig { service: DEFAULT_SERVICE.to_owned() }
    }
}

impl Default for StorageBackend {
    fn default() -> (r: Self)
        ensures
            r == StorageBackend::Auto,
    {
        StorageBackend::Auto
    }
}

impl Default for StorageConfig {
    fn default() -> (r: Self)
        ensures
            r.backend == StorageBackend::Auto,
    {
        StorageConfig { backend: StorageBackend::Auto }
    }
}

impl Default for ClipboardConfig {
    fn default() -> (r: Self)
        ensures
            r.clear_seconds == DEFAULT_CLEAR_SECONDS,
    {
        ClipboardConfig { clear_seconds: DEFAULT_CLEAR_SECONDS }
    }
}

impl Default for GitConfig {
    fn default() -> (r: Self)
        ensures
            r.remote@ == Seq::<char>::empty(),
            r.path@ == DEFAULT_GIT_PATH@,
            r.branch@ == DEFAULT_GIT_BRANCH@,
    {
        GitConfig {
            remote: String::new(),
            path: DEFAULT_GIT_PATH.to_owned(),
            branch: DEFAULT_GIT_BRANCH.to_owned(),
        }
    }
}

impl Default for Config {
    fn default() -> (r: Self)
        ensures
            r.service_name() == DEFAULT_SERVICE@,
            r.storage.backend == StorageBackend::Auto,
            r.clipboard.clear_seconds == DEFAULT_CLEAR_SECONDS,
            r.sync is None,
    {
        Config {
            default: DefaultConfig { service: DEFAULT_SERVICE.to_owned() },
            storage: StorageConfig { backend: StorageBackend::Auto },
            clipboard: ClipboardConfig { clear_seconds: DEFAULT_CLEAR_SECONDS },
            sync: None,
        }
    }
}

// ---------------------------------------------------------------------------
// Names
// ---------------------------------------------------------------------------
/// The storage backend of a name.
pub open spec fn storage_named(name: Seq<char>) -> Option<StorageBackend> {
    if name == "auto"@ {
        Some(StorageBackend::Auto)
    } else if name == "keyring"@ {
        Some(StorageBackend::Keyring)
    } else if name == "file"@ {
        Some(StorageBackend::File)
    } else {
        None
    }
}

/// The sync backend of a name.
pub open spec fn backend_named(name: Seq<char>) -> Option<BackendKind> {
    if name == "git"@ {
        Some(BackendKind::Git)
    } else if name == "webdav"@ {
        Some(BackendKind::WebDav)
    } else {
        None
    }
}

/// The storage backend of a name.
pub fn storage_backend(name: &str) -> (r: Option<StorageBackend>)
    ensures
        r == storage_named(name@),
{
    if text::same(name, "auto") {
        Some(StorageBackend::Auto)
    } else if text::same(name, "keyring") {
        Some(StorageBackend::Keyring)
    } else if text::same(name, "file") {
        Some(StorageBackend::File)
    } else {
        None
    }
}

/// The sync backend of a name.
pub fn backend_kind(name: &str) -> (r: Option<BackendKind>)
    ensures
        r == backend_named(name@),
{
    if text::same(name, "git") {
        Some(BackendKind::Git)
    } else if text::same(name, "webdav") {
        Some(BackendKind::WebDav)
    } else {
        None
    }
}

// ---------------------------------------------------------------------------
// Loading
// ---------------------------------------------------------------------------
/// The values in a config file: sections by whether they are there, everything
/// else where it is set.
pub struct RawConfig {
    pub service: Option<String>,
    pub storage_backend: Option<String>,
    pub clear_seconds: Option<u16>,
    pub sync: bool,
    pub sync_backend: Option<String>,
    pub git: bool,
    pub git_remote: Option<String>,
    pub git_path: Option<String>,
    pub git_branch: Option<String>,
    pub webdav: bool,
    pub webdav_url: Option<String>,
    pub webdav_username: Option<String>,
}

/// A text, or a default where it is absent.
pub open spec fn text_or(value: Option<String>, default: Seq<char>) -> Seq<char> {
    match value {
        Some(text) => text@,
        None => default,
    }
}

/// The values are complete and known: every name is known, and a section that is
/// there has what it needs.
pub open spec fn complete(raw: RawConfig) -> bool {
    &&& raw.storage_backend matches Some(name) ==> storage_named(name@) is Some
    &&& raw.sync ==> (raw.sync_backend matches Some(name) && backend_named(name@) is Some)
    &&& raw.sync && raw.git ==> raw.git_remote is Some
    &&& raw.sync && raw.webdav ==> raw.webdav_url is Some && raw.webdav_username is Some
}

/// What is said of values that are not complete: of the first thing that is
/// unknown or missing.
pub open spec fn refusal(raw: RawConfig) -> Seq<char> {
    if raw.storage_backend matches Some(name) && storage_named(name@) is None {
        "enum StorageBackend does not have variant constructor "@ + raw.storage_backend->0@
            + " for key `storage.backend`"@
    } else if raw.sync_backend is None {
        missing("sync.backend"@)
    } else if backend_named(raw.sync_backend->0@) is None {
        "enum BackendKind does not have variant constructor "@ + raw.sync_backend->0@
            + " for key `sync.backend`"@
    } else if raw.git && raw.git_remote is None {
        missing("sync.git.remote"@)
    } else if raw.webdav_url is None {
        missing("sync.webdav.url"@)
    } else {
        missing("sync.webdav.username"@)
    }
}

/// What is said of a missing field.
pub open spec fn missing(key: Seq<char>) -> Seq<char> {
    "missing configuration field \""@ + key + "\""@
}

impl Config {
    /// The keyring service name.
    pub open spec fn service_name(&self) -> Seq<char> {
        self.default.service@
    }

    /// The configuration says what the values say, with the defaults for what
    /// they leave open.
    pub open spec fn resolves(&self, raw: RawConfig) -> bool {
        &&& self.service_name() == text_or(raw.service, DEFAULT_SERVICE@)
        &&& self.storage.backend == match raw.storage_backend {
            Some(name) => storage_named(name@)->0,
            None => StorageBackend::Auto,
        }
        &&& self.clipboard.clear_seconds == match raw.clear_seconds {
            Some(n) => n,
            None => DEFAULT_CLEAR_SECONDS,
        }
        &&& match self.sync {
            None => !raw.sync,
            Some(sync) => {
                &&& raw.sync && raw.sync_backend is Some
                &&& backend_named(raw.sync_backend->0@) == Some(sync.backend)
                &&& match sync.git {
                    None => !raw.git,
                    Some(git) => raw.git && git.remote@ == raw.git_remote->0@ && git.path@
                        == text_or(raw.git_path, DEFAULT_GIT_PATH@) && git.branch@ == text_or(
                        raw.git_branch,
                        DEFAULT_GIT_BRANCH@,
                    ),
                }
                &&& match sync.webdav {
                    None => !raw.webdav,
                    Some(webdav) => raw.webdav && webdav.url@ == raw.webdav_url->0@
                        && webdav.username@ == raw.webdav_username->0@,
                }
            },
        }
    }

    /// The configuration that values say, or why they say none.
    pub fn resolve(raw: RawConfig) -> (r: Result<Self, String>)
        ensures
            match r {
                Ok(cfg) => complete(raw) && cfg.resolves(raw),
                Err(message) => !complete(raw) && message@ == refusal(raw),
            },
    {
        let storage = match &raw.storage_backend {
            Some(name) => match storage_backend(name.as_str()) {
                Some(backend) => backend,
                None => {
                    return Err(
                        text::join3(
                            "enum StorageBackend does not have variant constructor ",
                            name.as_str(),
                            " for key `storage.backend`",
                        ),
                    );
                },
            },
            None => StorageBackend::Auto,
        };
        let sync = if raw.sync {
            let name = match &raw.sync_backend {
                Some(name) => name,
                None => {
                    return Err(missing_field("sync.backend"));
                },
            };
            let backend = match backend_kind(name.as_str()) {
                Some(backend) => backend,
                None => {
                    return Err(
                        text::join3(
                            "enum BackendKind does not have variant constructor ",
                            name.as_str(),
                            " for key `sync.backend`",
                        ),
                    );
                },
            };
            let git = if raw.git {
                match &raw.git_remote {
                    Some(remote) => Some(
                        GitConfig {
                            remote: remote.clone(),
                            path: string_or(&raw.git_path, DEFAULT_GIT_PATH),
                            branch: string_or(&raw.git_branch, DEFAULT_GIT_BRANCH),
                        },
                    ),
                    None => {
                        return Err(missing_field("sync.git.remote"));
                    },
                }
            } else {
                None
            };
            let webdav = if raw.webdav {
                match (&raw.webdav_url, &raw.webdav_username) {
                    (Some(url), Some(username)) => Some(
                        WebDavConfig { url: url.clone(), username: username.clone() },
                    ),
                    (None, _) => {
                        return Err(missing_field("sync.webdav.url"));
                    },
                    (_, None) => {
                        return Err(missing_field("sync.webdav.username"));
                    },
                }
            } else {
                None
            };
            Some(SyncConfig { backend, git, webdav })
        } else {
            None
        };
        Ok(
            Config {
                default: DefaultConfig { service: string_or(&raw.service, DEFAULT_SERVICE) },
                storage: StorageConfig { backend: storage },
                clipboard: ClipboardConfig {
                    clear_seconds: match raw.clear_seconds {
                        Some(n) => n,
                        None => DEFAULT_CLEAR_SECONDS,
                    },
                },
                sync,
            },
        )
    }

    /// Load config from the text of the file at `path` (or at the default
    /// location when `None`).
    ///
    /// A missing file (no text) yields the default configuration. A text with a
    /// top-level key that may lead too far is refused.
    pub fn load(path: Option<&str>, toml: Option<&str>) -> (r: Result<Self, Error>)
        ensures
            match r {
                Ok(cfg) => match toml {
                    None => cfg.is_default(),
                    Some(text) => within_reach(text@) && exists|raw: RawConfig| #[trigger]
                        holds(text@, raw) && complete(raw) && cfg.resolves(raw),
                },
                Err(e) => {
                    &&& toml is Some
                    &&& e matches Error::Config(ConfigError::Load { path: at, message })
                    &&& path matches Some(given) ==> at@ == given@
                    &&& path is None ==> exists|base: Option<String>| #[trigger]
                        paths::is_user_config_dir(base) && at@ == paths::joined(
                            paths::app_dir(paths::base_view(base)),
                            "config.toml"@,
                        )
                    &&& {
                        ||| toml_keys(toml->0@) is None && said_of(toml->0, message)
                        ||| names_far_key(toml->0@, message@)
                        ||| within_reach(toml->0@) && refused(toml->0@) && said_of(
                            toml->0,
                            message,
                        )
                        ||| within_reach(toml->0@) && exists|raw: RawConfig| #[trigger]
                            holds(toml->0@, raw) && !complete(raw) && message@ == refusal(raw)
                    }
                },
            },
    {
        let text = match toml {
            Some(text) => text,
            None => {
                return Ok(Config::default());
            },
        };
        let outcome = match read_values(text) {
            Ok(raw) => {
                proof {
                    assert(holds(text@, raw));
                }
                Config::resolve(raw)
            },
            Err(message) => Err(message),
        };
        match outcome {
            Ok(cfg) => Ok(cfg),
            Err(message) => {
                let at = match path {
                    Some(given) => given.to_owned(),
                    None => paths::config_path(),
                };
                Err(Error::Config(ConfigError::Load { path: at, message }))
            },
        }
    }

    /// All defaults.
    pub open spec fn is_default(&self) -> bool {
        self.service_name() == DEFAULT_SERVICE@ && self.storage.backend == StorageBackend::Auto
            && self.clipboard.clear_seconds == DEFAULT_CLEAR_SECONDS && self.sync is None
    }

    /// The keyring service name (default `"avpm"`).
    #[must_use]
    pub fn service(&self) -> (r: &str)
        ensures
            r@ == self.service_name(),
    {
        self.default.service.as_str()
    }

    /// The sync config, if configured.
    #[must_use]
    pub fn sync_config(&self) -> (r: Option<&SyncConfig>)
        ensures
            match r {
                Some(sync) => self.sync == Some(*sync),
                None => self.sync is None,
            },
    {
        self.sync.as_ref()
    }

    /// The storage-backend config (default: `auto`).
    #[must_use]
    pub fn storage_config(&self) -> (r: &StorageConfig)
        ensures
            *r == self.storage,
    {
        &self.storage
    }

    /// The clipboard config (auto-clear timeout).
    #[must_use]
    pub fn clipboard_config(&self) -> (r: &ClipboardConfig)
        ensures
            *r == self.clipboard,
    {
        &self.clipboard
    }
}

/// What is set stands, and what is not has its default: the service name of the program,
/// the `auto` storage, forty-five seconds for the clipboard, no sync, and for git the file
/// `vault.age` on the branch `main`.
pub proof fn settings_stand_or_have_their_default(raw: RawConfig, r: Result<Config, String>)
    requires
        call_ensures(Config::resolve, (raw,), r),
    ensures
        r matches Ok(cfg) ==> {
            &&& cfg.default.service@ == match raw.service {
                Some(name) => name@,
                None => "avpm"@,
            }
            &&& match raw.storage_backend {
                None => cfg.storage.backend == StorageBackend::Auto,
                Some(name) => {
                    &&& cfg.storage.backend == StorageBackend::Auto <==> name@ == "auto"@
                    &&& cfg.storage.backend == StorageBackend::Keyring <==> name@ == "keyring"@
                    &&& cfg.storage.backend == StorageBackend::File <==> name@ == "file"@
                },
            }
            &&& cfg.clipboard.clear_seconds == match raw.clear_seconds {
                Some(n) => n,
                None => 45u16,
            }
            &&& cfg.sync is Some <==> raw.sync
            &&& cfg.sync matches Some(sync) ==> {
                &&& sync.backend == BackendKind::Git <==> raw.sync_backend->0@ == "git"@
                &&& sync.backend == BackendKind::WebDav <==> raw.sync_backend->0@ == "webdav"@
                &&& sync.git is Some <==> raw.git
                &&& sync.webdav is Some <==> raw.webdav
                &&& sync.git matches Some(git) ==> {
                    &&& git.remote@ == raw.git_remote->0@
                    &&& git.path@ == match raw.git_path {
                        Some(path) => path@,
                        None => "vault.age"@,
                    }
                    &&& git.branch@ == match raw.git_branch {
                        Some(branch) => branch@,
                        None => "main"@,
                    }
                }
                &&& sync.webdav matches Some(webdav) ==> webdav.url@ == raw.webdav_url->0@
                    && webdav.username@ == raw.webdav_username->0@
            }
        },
{
    lemma_names_differ();
}

/// A configuration is refused where a name is unknown or something needed is missing, and
/// nowhere else; what is said names it.
pub proof fn refusal_names_the_fault(raw: RawConfig, r: Result<Config, String>)
    requires
        call_ensures(Config::resolve, (raw,), r),
    ensures
        r is Ok <==> {
            &&& raw.storage_backend matches Some(name) ==> name@ == "auto"@ || name@ == "keyring"@
                || name@ == "file"@
            &&& raw.sync ==> (raw.sync_backend matches Some(name) && (name@ == "git"@ || name@
                == "webdav"@))
            &&& raw.sync && raw.git ==> raw.git_remote is Some
            &&& raw.sync && raw.webdav ==> raw.webdav_url is Some && raw.webdav_username is Some
        },
        r matches Err(message) ==> {
            ||| raw.storage_backend is Some && text::occurs_in(message@, raw.storage_backend->0@)
                && text::ends(message@, " for key `storage.backend`"@)
            ||| raw.sync_backend is Some && text::occurs_in(message@, raw.sync_backend->0@)
                && text::ends(message@, " for key `sync.backend`"@)
            ||| raw.sync && raw.sync_backend is None && text::occurs_in(message@, "sync.backend"@)
            ||| raw.git && raw.git_remote is None && text::occurs_in(message@, "sync.git.remote"@)
            ||| raw.webdav && raw.webdav_url is None && text::occurs_in(
                message@,
                "sync.webdav.url"@,
            )
            ||| raw.webdav && raw.webdav_username is None && text::occurs_in(
                message@,
                "sync.webdav.username"@,
            )
        },
{
    lemma_names_differ();
    if r is Err {
        let m = refusal(raw);
        if raw.storage_backend matches Some(name) && storage_named(name@) is None {
            let name = raw.storage_backend->0@;
            let head = "enum StorageBackend does not have variant constructor "@;
            text::part_occurs(head, name, " for key `storage.backend`"@);
            assert(m == (head + name) + " for key `storage.backend`"@);
            text::ends_split_the_text(m, " for key `storage.backend`"@);
        } else if raw.sync_backend is None {
            text::part_occurs("missing configuration field \""@, "sync.backend"@, "\""@);
        } else if backend_named(raw.sync_backend->0@) is None {
            let name = raw.sync_backend->0@;
            let head = "enum BackendKind does not have variant constructor "@;
            text::part_occurs(head, name, " for key `sync.backend`"@);
            assert(m == (head + name) + " for key `sync.backend`"@);
            text::ends_split_the_text(m, " for key `sync.backend`"@);
        } else if raw.git && raw.git_remote is None {
            text::part_occurs("missing configuration field \""@, "sync.git.remote"@, "\""@);
        } else if raw.webdav_url is None {
            text::part_occurs("missing configuration field \""@, "sync.webdav.url"@, "\""@);
        } else {
            text::part_occurs("missing configuration field \""@, "sync.webdav.username"@, "\""@);
        }
    }
}

/// Without a file everything has its default.
pub proof fn missing_file_is_all_defaults(path: Option<&str>, r: Result<Config, Error>)
    requires
        call_ensures(Config::load, (path, None::<&str>), r),
    ensures
        r matches Ok(cfg) && cfg.default.service@ == "avpm"@ && cfg.storage.backend
            == StorageBackend::Auto && cfg.clipboard.clear_seconds == 45 && cfg.sync is None,
{
}

proof fn lemma_names_differ()
    ensures
        "auto"@ != "keyring"@ && "auto"@ != "file"@ && "keyring"@ != "file"@,
        "git"@ != "webdav"@,
{
    reveal_strlit("auto");
    reveal_strlit("keyring");
    reveal_strlit("file");
    reveal_strlit("git");
    reveal_strlit("webdav");
    assert("auto"@[0] == 'a' && "file"@[0] == 'f');
    assert("auto"@.len() == 4 && "keyring"@.len() == 7 && "file"@.len() == 4);
    assert("git"@.len() == 3 && "webdav"@.len() == 6);
}

/// The values of a file are where its sections have them: each is read from the key that
/// is its section's name, a dot and its own.
pub proof fn values_are_at_their_keys(toml: Seq<char>, raw: RawConfig)
    requires
        holds(toml, raw),
    ensures
        toml_table(toml, "default"@) is Some ==> toml_string(toml, "default.service"@) == Some(
            optional_string(raw.service),
        ),
        toml_table(toml, "storage"@) is Some ==> name_at(toml, "storage.backend"@) == Some(
            optional_string(raw.storage_backend),
        ),
        toml_table(toml, "clipboard"@) is Some ==> toml_u16(toml, "clipboard.clear_seconds"@)
            == Some(raw.clear_seconds),
        raw.sync <==> toml_table(toml, "sync"@) != Some(None::<Seq<Seq<char>>>),
        raw.sync && toml_table(toml, "sync"@) is Some ==> {
            &&& name_at(toml, "sync.backend"@) == Some(optional_string(raw.sync_backend))
            &&& raw.git <==> toml_table(toml, "sync.git"@) != Some(None::<Seq<Seq<char>>>)
            &&& raw.webdav <==> toml_table(toml, "sync.webdav"@) != Some(None::<Seq<Seq<char>>>)
            &&& raw.git && toml_table(toml, "sync.git"@) is Some ==> {
                &&& toml_string(toml, "sync.git.remote"@) == Some(optional_string(raw.git_remote))
                &&& toml_string(toml, "sync.git.path"@) == Some(optional_string(raw.git_path))
                &&& toml_string(toml, "sync.git.branch"@) == Some(optional_string(raw.git_branch))
            }
            &&& raw.webdav && toml_table(toml, "sync.webdav"@) is Some ==> {
                &&& toml_string(toml, "sync.webdav.url"@) == Some(optional_string(raw.webdav_url))
                &&& toml_string(toml, "sync.webdav.username"@) == Some(
                    optional_string(raw.webdav_username),
                )
            }
        },
{
    lemma_section_keys();
    lemma_sync_keys();
}

proof fn lemma_section_keys()
    ensures
        "default"@ + "."@ + "service"@ == "default.service"@,
        "storage"@ + "."@ + "backend"@ == "storage.backend"@,
        "clipboard"@ + "."@ + "clear_seconds"@ == "clipboard.clear_seconds"@,
        "sync"@ + "."@ + "backend"@ == "sync.backend"@,
        "sync"@ + "."@ + "git"@ == "sync.git"@,
        "sync"@ + "."@ + "webdav"@ == "sync.webdav"@,
{
    reveal_strlit(".");
    reveal_strlit("default");
    reveal_strlit("service");
    reveal_strlit("default.service");
    reveal_strlit("storage");
    reveal_strlit("backend");
    reveal_strlit("storage.backend");
    reveal_strlit("clipboard");
    reveal_strlit("clear_seconds");
    reveal_strlit("clipboard.clear_seconds");
    reveal_strlit("sync");
    reveal_strlit("sync.backend");
    reveal_strlit("git");
    reveal_strlit("sync.git");
    reveal_strlit("webdav");
    reveal_strlit("sync.webdav");
    assert("default"@ + "."@ + "service"@ =~= "default.service"@);
    assert("storage"@ + "."@ + "backend"@ =~= "storage.backend"@);
    assert("clipboard"@ + "."@ + "clear_seconds"@ =~= "clipboard.clear_seconds"@);
    assert("sync"@ + "."@ + "backend"@ =~= "sync.backend"@);
    assert("sync"@ + "."@ + "git"@ =~= "sync.git"@);
    assert("sync"@ + "."@ + "webdav"@ =~= "sync.webdav"@);
}

proof fn lemma_sync_keys()
    ensures
        "sync.git"@ + "."@ + "remote"@ == "sync.git.remote"@,
        "sync.git"@ + "."@ + "path"@ == "sync.git.path"@,
        "sync.git"@ + "."@ + "branch"@ == "sync.git.branch"@,
        "sync.webdav"@ + "."@ + "url"@ == "sync.webdav.url"@,
        "sync.webdav"@ + "."@ + "username"@ == "sync.webdav.username"@,
{
    reveal_strlit(".");
    reveal_strlit("sync.git");
    reveal_strlit("sync.webdav");
    reveal_strlit("remote");
    reveal_strlit("path");
    reveal_strlit("branch");
    reveal_strlit("url");
    reveal_strlit("username");
    reveal_strlit("sync.git.remote");
    reveal_strlit("sync.git.path");
    reveal_strlit("sync.git.branch");
    reveal_strlit("sync.webdav.url");
    reveal_strlit("sync.webdav.username");
    assert("sync.git"@ + "."@ + "remote"@ =~= "sync.git.remote"@);
    assert("sync.git"@ + "."@ + "path"@ =~= "sync.git.path"@);
    assert("sync.git"@ + "."@ + "branch"@ =~= "sync.git.branch"@);
    assert("sync.webdav"@ + "."@ + "url"@ =~= "sync.webdav.url"@);
    assert("sync.webdav"@ + "."@ + "username"@ =~= "sync.webdav.username"@);
}

fn string_or(value: &Option<String>, default: &str) -> (r: String)
    ensures
        r@ == text_or(*value, default@),
{
    match value {
        Some(text) => text.clone(),
        None => default.to_owned(),
    }
}

fn missing_field(key: &str) -> (r: String)
    ensures
        r@ == missing(key@),
{
    text::join3("missing configuration field \"", key, "\"")
}

/// How a section is written.
#[derive(Debug, Clone, Copy, PartialEq, Eq, Structural)]
pub enum Section {
    /// Not at all.
    Absent,
    /// As a table, its values by name.
    Table,
    /// As an array, its values in order.
    Array,
}

/// How the section at `key` is written; `None` where there is something else.
pub open spec fn section_at(toml: Seq<char>, key: Seq<char>) -> Option<Section> {
    match toml_table(toml, key) {
        Some(Some(_)) => Some(Section::Table),
        Some(None) => Some(Section::Absent),
        None => match toml_array(toml, key) {
            Some(Some(_)) => Some(Section::Array),
            _ => None,
        },
    }
}

/// How the section at `key` is written.
fn read_section(toml: &str, key: &str) -> (r: Result<Section, String>)
    requires
        within_reach(toml@),
    ensures
        match r {
            Ok(section) => section_at(toml@, key@) == Some(section),
            Err(message) => section_at(toml@, key@) is None && said_of(toml, message),
        },
{
    match read_table(toml, key) {
        Ok(Some(_)) => Ok(Section::Table),
        Ok(None) => Ok(Section::Absent),
        Err(message) => match read_array(toml, key) {
            Ok(Some(_)) => Ok(Section::Array),
            _ => Err(message),
        },
    }
}

/// The name at `key`, where one of several is to be chosen: a string, or a table
/// with the name as its one key.
pub open spec fn name_at(toml: Seq<char>, key: Seq<char>) -> Option<Option<Seq<char>>> {
    match toml_string(toml, key) {
        Some(name) => Some(name),
        None => match toml_table(toml, key) {
            Some(Some(keys)) if keys.len() == 1 => Some(Some(keys[0])),
            _ => None,
        },
    }
}

/// The name at `key`.
fn read_name(toml: &str, key: &str) -> (r: Result<Option<String>, String>)
    requires
        within_reach(toml@),
    ensures
        match r {
            Ok(name) => name_at(toml@, key@) == Some(optional_string(name)),
            Err(message) => name_at(toml@, key@) is None && said_of(toml, message),
        },
{
    match read_string(toml, key) {
        Ok(name) => Ok(name),
        Err(message) => match read_table(toml, key) {
            Ok(Some(keys)) => {
                if keys.len() == 1 {
                    Ok(Some(keys[0].clone()))
                } else {
                    Err(message)
                }
            },
            _ => Err(message),
        },
    }
}

/// Where a section has the value `name`, which comes at position `at` of an array.
pub open spec fn value_key(
    key: Seq<char>,
    section: Section,
    name: Seq<char>,
    at: nat,
) -> Seq<char> {
    if section == Section::Array {
        key + "["@ + text::decimal(at) + "]"@
    } else {
        key + "."@ + name
    }
}

/// Where a section has the value `name`.
fn key_of(key: &str, section: Section, name: &str, at: u64) -> (r: String)
    ensures
        r@ == value_key(key@, section, name@, at as nat),
{
    if section == Section::Array {
        let n = text::decimal_text(at);
        let mut out = text::join3(key, "[", n.as_str());
        out.append("]");
        out
    } else {
        text::join3(key, ".", name)
    }
}

/// The values are those in a TOML text. Values of a section that is not there are
/// not looked at.
pub open spec fn holds(toml: Seq<char>, raw: RawConfig) -> bool {
    let default = section_at(toml, "default"@);
    let storage = section_at(toml, "storage"@);
    let clipboard = section_at(toml, "clipboard"@);
    let sync = section_at(toml, "sync"@);
    &&& default is Some && storage is Some && clipboard is Some && sync is Some
    &&& toml_string(toml, value_key("default"@, default->0, "service"@, 0)) == Some(
        optional_string(raw.service),
    )
    &&& name_at(toml, value_key("storage"@, storage->0, "backend"@, 0)) == Some(
        optional_string(raw.storage_backend),
    )
    &&& toml_u16(toml, value_key("clipboard"@, clipboard->0, "clear_seconds"@, 0)) == Some(
        raw.clear_seconds,
    )
    &&& raw.sync == (sync->0 != Section::Absent)
    &&& raw.sync ==> holds_sync(toml, sync->0, raw)
}

/// The values of the sync section are those in a TOML text.
pub open spec fn holds_sync(toml: Seq<char>, sync: Section, raw: RawConfig) -> bool {
    let git_key = value_key("sync"@, sync, "git"@, 1);
    let webdav_key = value_key("sync"@, sync, "webdav"@, 2);
    let git = section_at(toml, git_key);
    let webdav = section_at(toml, webdav_key);
    &&& name_at(toml, value_key("sync"@, sync, "backend"@, 0)) == Some(
        optional_string(raw.sync_backend),
    )
    &&& git is Some && webdav is Some
    &&& raw.git == (git->0 != Section::Absent)
    &&& raw.webdav == (webdav->0 != Section::Absent)
    &&& raw.git ==> {
        &&& toml_string(toml, value_key(git_key, git->0, "remote"@, 0)) == Some(
            optional_string(raw.git_remote),
        )
        &&& toml_string(toml, value_key(git_key, git->0, "path"@, 1)) == Some(
            optional_string(raw.git_path),
        )
        &&& toml_string(toml, value_key(git_key, git->0, "branch"@, 2)) == Some(
            optional_string(raw.git_branch),
        )
    }
    &&& raw.webdav ==> {
        &&& toml_string(toml, value_key(webdav_key, webdav->0, "url"@, 0)) == Some(
            optional_string(raw.webdav_url),
        )
        &&& toml_string(toml, value_key(webdav_key, webdav->0, "username"@, 1)) == Some(
            optional_string(raw.webdav_username),
        )
    }
}

/// A TOML text of which something that is looked at is refused.
pub open spec fn refused(toml: Seq<char>) -> bool {
    forall|raw: RawConfig| !#[trigger] holds(toml, raw)
}

/// What is said of a TOML text with keys that may lead too far: it names the first
/// of them.
pub open spec fn names_far_key(toml: Seq<char>, message: Seq<char>) -> bool {
    toml_keys(toml) matches Some(keys) && exists|i: int|
        0 <= i < keys.len() && far_key(keys[i]) && (forall|j: int|
            0 <= j < i ==> !far_key(#[trigger] keys[j])) && message == #[trigger] far_key_text(
            keys[i],
        )
}

/// The values in a TOML text.
fn read_values(toml: &str) -> (r: Result<RawConfig, String>)
    ensures
        match r {
            Ok(raw) => within_reach(toml@) && holds(toml@, raw),
            Err(message) => {
                ||| toml_keys(toml@) is None && said_of(toml, message)
                ||| names_far_key(toml@, message@)
                ||| within_reach(toml@) && refused(toml@) && said_of(toml, message)
            },
        },
{
    let keys = read_keys(toml)?;
    let ghost all = text::views(keys@);
    if let Some(p) = first_far_key(&keys) {
        let message = text::join3("key `", keys[p].as_str(), "` has an index or leads too far down");
        proof {
            assert(all[p as int] == keys@[p as int]@);
            assert forall|j: int| 0 <= j < p implies !far_key(#[trigger] all[j]) by {
                assert(all[j] == keys@[j]@);
            }
            assert(message@ == far_key_text(all[p as int]));
        }
        return Err(message);
    }
    assert(within_reach(toml@)) by {
        assert forall|i: int| 0 <= i < all.len() implies !far_key(#[trigger] all[i]) by {
            assert(all[i] == keys@[i]@);
        }
    }
    let default = read_section(toml, "default")?;
    let storage = read_section(toml, "storage")?;
    let clipboard = read_section(toml, "clipboard")?;
    let sync = read_section(toml, "sync")?;
    let service = read_string(toml, key_of("default", default, "service", 0).as_str())?;
    let storage_backend = read_name(toml, key_of("storage", storage, "backend", 0).as_str())?;
    let clear_seconds = read_u16(toml, key_of("clipboard", clipboard, "clear_seconds", 0).as_str())?;
    let mut raw = RawConfig {
        service,
        storage_backend,
        clear_seconds,
        sync: sync != Section::Absent,
        sync_backend: None,
        git: false,
        git_remote: None,
        git_path: None,
        git_branch: None,
        webdav: false,
        webdav_url: None,
        webdav_username: None,
    };
    if raw.sync {
        raw.sync_backend = read_name(toml, key_of("sync", sync, "backend", 0).as_str())?;
        let git_key = key_of("sync", sync, "git", 1);
        let webdav_key = key_of("sync", sync, "webdav", 2);
        let git = read_section(toml, git_key.as_str())?;
        let webdav = read_section(toml, webdav_key.as_str())?;
        raw.git = git != Section::Absent;
        raw.webdav = webdav != Section::Absent;
        if raw.git {
            raw.git_remote = read_string(toml, key_of(git_key.as_str(), git, "remote", 0).as_str())?;
            raw.git_path = read_string(toml, key_of(git_key.as_str(), git, "path", 1).as_str())?;
            raw.git_branch = read_string(toml, key_of(git_key.as_str(), git, "branch", 2).as_str())?;
        }
        if raw.webdav {
            raw.webdav_url = read_string(toml, key_of(webdav_key.as_str(), webdav, "url", 0).as_str())?;
            raw.webdav_username = read_string(
                toml,
                key_of(webdav_key.as_str(), webdav, "username", 1).as_str(),
            )?;
        }
        assert(holds_sync(toml@, sync, raw));
    }
    Ok(raw)
}

} // verus!
