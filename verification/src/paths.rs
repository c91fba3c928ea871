//! Platform path location (XDG on Linux, Library on macOS).
//!
//! A path is a text. A directory of the user whose name is not valid Unicode
//! counts as unknown.

use vstd::prelude::*;

use crate::text;

verus! {

/// `dirs::config_dir`: the user's configuration directory, which depends on the
/// environment.
#[verifier::external_body]
fn user_config_dir() -> Option<String> {
    dirs::config_dir().and_then(|dir| dir.into_os_string().into_string().ok())
}

/// `dirs::data_dir`: the user's data directory, which depends on the
/// environment.
#[verifier::external_body]
fn user_data_dir() -> Option<String> {
    dirs::data_dir().and_then(|dir| dir.into_os_string().into_string().ok())
}

/// `dirs::cache_dir`: the user's cache directory, which depends on the
/// environment.
#[verifier::external_body]
fn user_cache_dir() -> Option<String> {
    dirs::cache_dir().and_then(|dir| dir.into_os_string().into_string().ok())
}

/// The system answered `dir`, asked for the user's configuration directory.
pub closed spec fn is_user_config_dir(dir: Option<String>) -> bool {
    call_ensures(user_config_dir, (), dir)
}

/// The system answered `dir`, asked for the user's data directory.
pub closed spec fn is_user_data_dir(dir: Option<String>) -> bool {
    call_ensures(user_data_dir, (), dir)
}

/// The system answered `dir`, asked for the user's cache directory.
pub closed spec fn is_user_cache_dir(dir: Option<String>) -> bool {
    call_ensures(user_cache_dir, (), dir)
}

/// The relative path `name` below `dir`.
pub open spec fn joined(dir: Seq<char>, name: Seq<char>) -> Seq<char> {
    if dir.len() == 0 || dir.last() == '/' {
        dir + name
    } else {
        dir + "/"@ + name
    }
}

/// The relative path `name` below `dir`.
pub fn join(dir: &str, name: &str) -> (r: String)
    ensures
        r@ == joined(dir@, name@),
{
    proof {
        reveal_strlit("/");
        if dir@.len() > 0 && text::ends(dir@, "/"@) {
            assert(dir@.subrange(dir@.len() - 1, dir@.len() as int)[0] == "/"@[0]);
        }
        if dir@.len() > 0 && dir@.last() == '/' {
            assert(dir@.subrange(dir@.len() - 1, dir@.len() as int) =~= "/"@);
        }
    }
    if dir.is_empty() || text::ends_with(dir, "/") {
        text::join2(dir, name)
    } else {
        text::join3(dir, "/", name)
    }
}

/// A joined path is the directory, one slash and the name: a slash that the
/// directory ends in is not doubled, and below no directory the name stands alone.
pub proof fn one_slash_joins(dir: Seq<char>, name: Seq<char>)
    ensures
        dir.len() == 0 ==> joined(dir, name) == name,
        dir.len() > 0 ==> {
            let at = if dir.last() == '/' {
                dir.len() - 1
            } else {
                dir.len() as int
            };
            &&& joined(dir, name).len() == at + 1 + name.len()
            &&& joined(dir, name).take(at) == dir.take(at)
            &&& joined(dir, name)[at] == '/'
            &&& joined(dir, name).skip(at + 1) == name
        },
{
    reveal_strlit("/");
    if dir.len() == 0 {
        assert(joined(dir, name) =~= name);
    } else if dir.last() == '/' {
        assert(joined(dir, name).take(dir.len() - 1) =~= dir.take(dir.len() - 1));
        assert(joined(dir, name).skip(dir.len() as int) =~= name);
    } else {
        assert(joined(dir, name).take(dir.len() as int) =~= dir.take(dir.len() as int));
        assert(joined(dir, name).skip(dir.len() as int + 1) =~= name);
    }
}

/// Files of different names never share a path.
pub proof fn names_keep_paths_apart(dir: Seq<char>, one: Seq<char>, other: Seq<char>)
    requires
        one != other,
    ensures
        joined(dir, one) != joined(dir, other),
{
    one_slash_joins(dir, one);
    one_slash_joins(dir, other);
}

/// The directory of this program below a directory of the user, or below the
/// current directory where there is none.
pub open spec fn app_dir(base: Option<Seq<char>>) -> Seq<char> {
    match base {
        Some(dir) => joined(dir, "avpm"@),
        None => joined("."@, "avpm"@),
    }
}

/// The directory that may be absent.
pub open spec fn base_view(base: Option<String>) -> Option<Seq<char>> {
    match base {
        Some(dir) => Some(dir@),
        None => None,
    }
}

/// The directory of this program is its name below the user's, or below the current
/// one.
pub proof fn program_directory(base: Option<Seq<char>>)
    ensures
        base matches Some(dir) ==> (dir.len() > 0 && dir.last() != '/' ==> app_dir(base) == dir
            + "/avpm"@),
        base is None ==> app_dir(base) == "./avpm"@,
{
    reveal_strlit("/");
    reveal_strlit("avpm");
    reveal_strlit("/avpm");
    reveal_strlit(".");
    reveal_strlit("./avpm");
    if let Some(dir) = base {
        if dir.len() > 0 && dir.last() != '/' {
            assert(app_dir(base) =~= dir + "/avpm"@);
        }
    } else {
        assert(app_dir(base) =~= "./avpm"@);
    }
}

/// The directory of this program below `base`.
pub fn app_dir_in(base: Option<String>) -> (r: String)
    ensures
        r@ == app_dir(base_view(base)),
{
    match base {
        Some(dir) => join(dir.as_str(), "avpm"),
        None => join(".", "avpm"),
    }
}

/// A file or directory of this program below `base`.
pub fn app_file_in(base: Option<String>, name: &str) -> (r: String)
    ensures
        r@ == joined(app_dir(base_view(base)), name@),
{
    let dir = app_dir_in(base);
    join(dir.as_str(), name)
}

/// The config *directory* (parent of the config file).
#[must_use]
pub fn config_dir() -> (r: String)
    ensures
        exists|base: Option<String>| #[trigger] is_user_config_dir(base) && r@ == app_dir(base_view(base)),
{
    let base = user_config_dir();
    assert(is_user_config_dir(base));
    app_dir_in(base)
}

/// The config file path (`~/.config/avpm/config.toml` on Linux,
/// `~/Library/Application Support/avpm/config.toml` on macOS).
#[must_use]
pub fn config_path() -> (r: String)
    ensures
        exists|base: Option<String>| #[trigger] is_user_config_dir(base) && r@ == joined(
            app_dir(base_view(base)),
            "config.toml"@,
        ),
{
    let base = user_config_dir();
    assert(is_user_config_dir(base));
    app_file_in(base, "config.toml")
}

/// The data directory (`~/.local/share/avpm/` on Linux).
#[must_use]
pub fn data_dir() -> (r: String)
    ensures
        exists|base: Option<String>| #[trigger] is_user_data_dir(base) && r@ == app_dir(base_view(base)),
{
    let base = user_data_dir();
    assert(is_user_data_dir(base));
    app_dir_in(base)
}

/// The index file path (`<data_dir>/index.json`).
#[must_use]
pub fn index_path() -> (r: String)
    ensures
        exists|base: Option<String>| #[trigger] is_user_data_dir(base) && r@ == joined(
            app_dir(base_view(base)),
            "index.json"@,
        ),
{
    let base = user_data_dir();
    assert(is_user_data_dir(base));
    app_file_in(base, "index.json")
}

/// The encrypted file-store path (`<data_dir>/store.age`). Distinct from sync's
/// remote `vault.age` blob.
#[must_use]
pub fn store_path() -> (r: String)
    ensures
        exists|base: Option<String>| #[trigger] is_user_data_dir(base) && r@ == joined(
            app_dir(base_view(base)),
            "store.age"@,
        ),
{
    let base = user_data_dir();
    assert(is_user_data_dir(base));
    app_file_in(base, "store.age")
}

/// The cache directory (`~/.cache/avpm/` on Linux), used for git clone temp
/// working dirs during sync.
#[must_use]
pub fn cache_dir() -> (r: String)
    ensures
        exists|base: Option<String>| #[trigger] is_user_cache_dir(base) && r@ == app_dir(base_view(base)),
{
    let base = user_cache_dir();
    assert(is_user_cache_dir(base));
    app_dir_in(base)
}

/// The sync temp working directory (`<cache_dir>/sync-tmp/`).
#[must_use]
pub fn sync_tmp_dir() -> (r: String)
    ensures
        exists|base: Option<String>| #[trigger] is_user_cache_dir(base) && r@ == joined(
            app_dir(base_view(base)),
            "sync-tmp"@,
        ),
{
    let base = user_cache_dir();
    assert(is_user_cache_dir(base));
    app_file_in(base, "sync-tmp")
}

/// The local sync base manifest path (`<data_dir>/sync-base.age`).
///
/// The base is the last-synced snapshot (the 3-way merge common ancestor),
/// age-encrypted with the master passphrase. It is **local-only**: never
/// uploaded, never leaves the device.
#[must_use]
pub fn sync_base_path() -> (r: String)
    ensures
        exists|base: Option<String>| #[trigger] is_user_data_dir(base) && r@ == joined(
            app_dir(base_view(base)),
            "sync-base.age"@,
        ),
{
    let base = user_data_dir();
    assert(is_user_data_dir(base));
    app_file_in(base, "sync-base.age")
}

} // verus!
