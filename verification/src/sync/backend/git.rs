//! `GitBackend` - sync via a system `git` subprocess.
//!
//! push: clone the remote to a temp dir, overwrite the blob, commit, push.
//! pull: clone, read the blob.
//! Authentication is fully delegated to the user's system git (SSH keys,
//! credential helpers, 2FA) - avpm never handles credentials.
//!
//! A push is a [`GitPush`]: its stage says which git command to run or which
//! file to write next, and the method named after what happened takes the
//! outcome.

use vstd::prelude::*;

use crate::config::GitConfig;
use crate::error::Error;
use crate::paths;
use crate::sync::error::{SyncBackendError, SyncError};
use crate::text;

verus! {

/// `rand::random` of a `u128`, written in hexadecimal: one to 32 of the digits
/// `0`-`9` and `a`-`f`.
#[verifier::external_body]
fn random_hex() -> (r: String)
    ensures
        1 <= r@.len() <= 32,
        forall|i: int|
            0 <= i < r@.len() ==> ('0' <= #[trigger] r@[i] <= '9') || ('a' <= r@[i] <= 'f'),
{
    format!("{:x}", rand::random::<u128>())
}

/// `dirs::home_dir`: the user's home directory, which depends on the
/// environment.
#[verifier::external_body]
fn user_home_dir() -> Option<String> {
    dirs::home_dir().and_then(|dir| dir.into_os_string().into_string().ok())
}

/// The `Display` text of `jiff::Timestamp::now`.
#[verifier::external_body]
fn current_time_text() -> String {
    jiff::Timestamp::now().to_string()
}

/// The random source answered `id`, asked for a hexadecimal number.
pub closed spec fn drawn_hex(id: String) -> bool {
    call_ensures(random_hex, (), id)
}

/// The system answered `dir`, asked for the user's home directory.
pub closed spec fn is_user_home_dir(dir: Option<String>) -> bool {
    call_ensures(user_home_dir, (), dir)
}

/// The clock said `now`.
pub closed spec fn told_by_clock(now: String) -> bool {
    call_ensures(current_time_text, (), now)
}

/// Git-backed sync transport.
pub struct GitBackend {
    pub remote: String,
    pub path: String,
    pub branch: String,
}

impl GitBackend {
    /// Build from a parsed `[sync.git]` config.
    #[must_use]
    pub fn new(cfg: &GitConfig) -> (r: Self)
        ensures
            r.remote == cfg.remote,
            r.path == cfg.path,
            r.branch == cfg.branch,
    {
        GitBackend {
            remote: cfg.remote.clone(),
            path: cfg.path.clone(),
            branch: cfg.branch.clone(),
        }
    }

    /// A fresh temp working directory below the sync temp dir.
    #[must_use]
    pub fn work_dir(&self) -> (r: String)
        ensures
            exists|base: Option<String>, id: String| #[trigger]
                paths::is_user_cache_dir(base) && #[trigger] drawn_hex(id) && r@ == paths::joined(
                    paths::joined(paths::app_dir(paths::base_view(base)), "sync-tmp"@),
                    id@,
                ) && 1 <= id@.len() <= 32 && is_hex(id@),
    {
        let base = paths::sync_tmp_dir();
        let id = random_hex();
        assert(drawn_hex(id));
        paths::join(base.as_str(), id.as_str())
    }

    /// Begin a push: clone the configured branch first.
    #[must_use]
    pub fn push(&self) -> (r: GitPush)
        ensures
            r.branch == self.branch,
            r.stage is CloneBranch,
            r.inv(),
    {
        GitPush { branch: self.branch.clone(), stage: GitPushStage::CloneBranch }
    }
}

/// A text of hexadecimal digits.
pub open spec fn is_hex(s: Seq<char>) -> bool {
    forall|i: int| 0 <= i < s.len() ==> ('0' <= #[trigger] s[i] <= '9') || ('a' <= s[i] <= 'f')
}

// ---------------------------------------------------------------------------
// Errors
// ---------------------------------------------------------------------------
/// The error of a git command.
pub open spec fn is_git_error(e: Error, what: Seq<char>, line: Seq<char>) -> bool {
    e matches Error::Sync(SyncError::Backend(SyncBackendError::Git { message, command }))
        && message@ == what && command@ == line
}

/// How a command and what it was about are written.
pub open spec fn command_text(cmd: Seq<char>, ctx: Seq<char>) -> Seq<char> {
    cmd + " ("@ + ctx + ")"@
}

/// The error of a git command that could not be run.
pub fn backend_git(cause: &str, cmd: &str, ctx: &str) -> (e: Error)
    ensures
        is_git_error(e, cause@, command_text(cmd@, ctx@)),
{
    let mut command = text::join3(cmd, " (", ctx);
    command.append(")");
    Error::Sync(
        SyncError::Backend(SyncBackendError::Git { message: cause.to_owned(), command }),
    )
}

/// What a finished git command left.
pub struct GitOutput {
    /// The exit code; `None` where a signal ended it.
    pub code: Option<i32>,
    pub stdout: String,
    pub stderr: String,
}

impl GitOutput {
    /// The command succeeded.
    pub open spec fn ok(&self) -> bool {
        self.code == Some(0i32)
    }

    /// Whether the command succeeded.
    #[must_use]
    pub fn success(&self) -> (r: bool)
        ensures
            r == self.ok(),
    {
        match self.code {
            Some(code) => code == 0,
            None => false,
        }
    }
}

/// The decimal numeral of a signed number.
pub open spec fn signed_decimal(n: int) -> Seq<char> {
    if n < 0 {
        "-"@ + text::decimal((-n) as nat)
    } else {
        text::decimal(n as nat)
    }
}

/// How an exit code is written.
pub open spec fn exit_text(code: Option<i32>) -> Seq<char> {
    match code {
        Some(n) => "exit Some("@ + signed_decimal(n as int) + ")"@,
        None => "exit None"@,
    }
}

/// What a failed git command left, as a message.
pub open spec fn output_text(out: GitOutput) -> Seq<char> {
    exit_text(out.code) + "\nstdout: "@ + out.stdout@ + "\nstderr: "@ + out.stderr@
}

/// The error of a git command that failed.
pub fn backend_git_output(cmd: &str, ctx: &str, out: &GitOutput) -> (e: Error)
    ensures
        is_git_error(e, output_text(*out), command_text(cmd@, ctx@)),
{
    let mut message = match out.code {
        Some(n) => {
            let wide: i64 = n as i64;
            let numeral = if wide < 0 {
                let digits = text::decimal_text((-wide) as u64);
                text::join2("-", digits.as_str())
            } else {
                text::decimal_text(wide as u64)
            };
            text::join3("exit Some(", numeral.as_str(), ")")
        },
        None => "exit None".to_owned(),
    };
    message.append("\nstdout: ");
    message.append(out.stdout.as_str());
    message.append("\nstderr: ");
    message.append(out.stderr.as_str());
    backend_git(message.as_str(), cmd, ctx)
}

/// The outcome of a git command about `ctx`: where it was run, what it left; else
/// why it could not be run.
pub fn git_outcome(run: Result<GitOutput, String>, cmd: &str, ctx: &str) -> (r: Result<
    GitOutput,
    Error,
>)
    ensures
        match run {
            Err(cause) => r matches Err(e) && is_git_error(e, cause@, command_text(cmd@, ctx@)),
            Ok(out) => if out.ok() {
                r == Ok::<GitOutput, Error>(out)
            } else {
                r matches Err(e) && is_git_error(e, output_text(out), command_text(cmd@, ctx@))
            },
        },
{
    match run {
        Ok(out) => {
            if out.success() {
                Ok(out)
            } else {
                Err(backend_git_output(cmd, ctx, &out))
            }
        },
        Err(cause) => Err(backend_git(cause.as_str(), cmd, ctx)),
    }
}

// ---------------------------------------------------------------------------
// Commands
// ---------------------------------------------------------------------------
/// The environment of every git command: never prompt for credentials, and a
/// fixed author.
pub open spec fn git_env() -> Seq<(Seq<char>, Seq<char>)> {
    seq![
        ("GIT_TERMINAL_PROMPT"@, "0"@),
        ("GIT_AUTHOR_NAME"@, "avpm"@),
        ("GIT_AUTHOR_EMAIL"@, "avpm@localhost"@),
        ("GIT_COMMITTER_NAME"@, "avpm"@),
        ("GIT_COMMITTER_EMAIL"@, "avpm@localhost"@),
    ]
}

/// The environment of every git command.
pub fn git_environment() -> (r: Vec<(&'static str, &'static str)>)
    ensures
        r@.map_values(|p: (&'static str, &'static str)| (p.0@, p.1@)) == git_env(),
{
    let vars = vec![
        ("GIT_TERMINAL_PROMPT", "0"),
        ("GIT_AUTHOR_NAME", "avpm"),
        ("GIT_AUTHOR_EMAIL", "avpm@localhost"),
        ("GIT_COMMITTER_NAME", "avpm"),
        ("GIT_COMMITTER_EMAIL", "avpm@localhost"),
    ];
    assert(vars@.map_values(|p: (&'static str, &'static str)| (p.0@, p.1@)) =~= git_env());
    vars
}

/// The arguments of a clone into `work`: of a branch, or of the remote's default
/// branch.
pub open spec fn clone_command(
    remote: Seq<char>,
    work: Seq<char>,
    branch: Option<Seq<char>>,
) -> Seq<Seq<char>> {
    match branch {
        Some(name) => seq!["clone"@, "--branch"@, name, "--"@, remote, work],
        None => seq!["clone"@, "--"@, remote, work],
    }
}

/// The arguments of a clone of `branch`, or of the default branch, into `work`.
pub fn clone_args(remote: &str, work: &str, branch: Option<&str>) -> (r: Vec<String>)
    ensures
        text::views(r@) == clone_command(
            remote@,
            work@,
            crate::vault::gkr::optional_text(branch),
        ),
{
    let mut args: Vec<String> = Vec::new();
    args.push("clone".to_owned());
    if let Some(name) = branch {
        args.push("--branch".to_owned());
        args.push(name.to_owned());
    }
    args.push("--".to_owned());
    args.push(remote.to_owned());
    args.push(work.to_owned());
    assert(text::views(args@) =~= clone_command(
        remote@,
        work@,
        crate::vault::gkr::optional_text(branch),
    ));
    args
}

/// The arguments that make a fresh repository on `branch`.
pub fn init_args(branch: &str) -> (r: Vec<String>)
    ensures
        text::views(r@) == seq!["init"@, "-b"@, branch@, "."@],
{
    let mut args: Vec<String> = Vec::new();
    args.push("init".to_owned());
    args.push("-b".to_owned());
    args.push(branch.to_owned());
    args.push(".".to_owned());
    assert(text::views(args@) =~= seq!["init"@, "-b"@, branch@, "."@]);
    args
}

/// The name of the reference of a branch.
pub fn branch_ref(branch: &str) -> (r: String)
    ensures
        r@ == "refs/heads/"@ + branch@,
{
    text::join2("refs/heads/", branch)
}

/// No line of a listing has anything on it.
pub open spec fn nothing_listed(listing: Seq<char>) -> bool {
    text::trimmed(listing).len() == 0
}

/// Whether the listing of a remote's references is empty: the remote exists but
/// has no branches yet.
pub fn no_refs(listing: &str) -> (r: bool)
    ensures
        r == nothing_listed(listing@),
{
    text::trim(listing).as_str().is_empty()
}

/// The name of the branch checked out, from what `git rev-parse` printed. "HEAD"
/// means detached; an empty remote has no branch at all.
pub fn head_branch(out: &GitOutput) -> (r: Result<String, Error>)
    ensures
        ({
            let name = text::trimmed(out.stdout@);
            match r {
                Ok(branch) => branch@ == name && name.len() > 0 && name != "HEAD"@,
                Err(e) => (name.len() == 0 || name == "HEAD"@) && is_git_error(
                    e,
                    output_text(*out),
                    command_text("git rev-parse"@, "HEAD"@),
                ),
            }
        }),
{
    let branch = text::trim(out.stdout.as_str());
    if branch.as_str().is_empty() || text::same(branch.as_str(), "HEAD") {
        Err(backend_git_output("git rev-parse", "HEAD", out))
    } else {
        Ok(branch)
    }
}

/// Whether a repository says that it is bare.
pub fn says_bare(out: &GitOutput) -> (r: bool)
    ensures
        r == (out.ok() && text::trimmed(out.stdout@) == "true"@),
{
    let answer = text::trim(out.stdout.as_str());
    out.success() && text::same(answer.as_str(), "true")
}

/// The note of a commit: the given one unless it is blank, else one with the
/// time.
pub open spec fn commit_note(message: Option<Seq<char>>, now: Seq<char>) -> Seq<char> {
    match message {
        Some(note) if text::trimmed(note).len() > 0 => note,
        _ => "avpm sync push "@ + now,
    }
}

/// The note of a commit at the time `now`.
pub fn commit_message_at(message: Option<&str>, now: &str) -> (r: String)
    ensures
        r@ == commit_note(crate::vault::gkr::optional_text(message), now@),
{
    if let Some(note) = message {
        if !text::trim(note).as_str().is_empty() {
            return note.to_owned();
        }
    }
    text::join2("avpm sync push ", now)
}

/// The note of a commit now.
pub fn commit_message(message: Option<&str>) -> (r: String)
    ensures
        exists|now: String| #[trigger]
            told_by_clock(now) && r@ == commit_note(
                crate::vault::gkr::optional_text(message),
                now@,
            ),
{
    let now = current_time_text();
    assert(told_by_clock(now));
    commit_message_at(message, now.as_str())
}

/// Whether a commit went well: a refusal because there is nothing to commit does
/// (a push is idempotent).
pub fn commit_outcome(run: Result<GitOutput, String>, note: &str) -> (r: Result<(), Error>)
    ensures
        match run {
            Err(cause) => r matches Err(e) && is_git_error(
                e,
                cause@,
                command_text("git commit"@, note@),
            ),
            Ok(out) => if out.ok() || nothing_to_commit(out) {
                r is Ok
            } else {
                r matches Err(e) && is_git_error(
                    e,
                    output_text(out),
                    command_text("git commit"@, note@),
                )
            },
        },
{
    match run {
        Ok(out) => {
            if out.success() || says_nothing_to_commit(out.stdout.as_str())
                || says_nothing_to_commit(out.stderr.as_str()) {
                Ok(())
            } else {
                Err(backend_git_output("git commit", note, &out))
            }
        },
        Err(cause) => Err(backend_git(cause.as_str(), "git commit", note)),
    }
}

/// A commit was refused because there is nothing to commit. `git` says so on
/// its standard output.
pub open spec fn nothing_to_commit(out: GitOutput) -> bool {
    tells_nothing_to_commit(out.stdout@) || tells_nothing_to_commit(out.stderr@)
}

/// A text says that there is nothing to commit.
pub open spec fn tells_nothing_to_commit(told: Seq<char>) -> bool {
    text::occurs_in(told, "nothing to commit"@) || text::occurs_in(told, "no changes"@)
}

fn says_nothing_to_commit(told: &str) -> (r: bool)
    ensures
        r == tells_nothing_to_commit(told@),
{
    text::contains(told, "nothing to commit") || text::contains(told, "no changes")
}

// ---------------------------------------------------------------------------
// Remotes
// ---------------------------------------------------------------------------
/// The filesystem path of a remote that is locally accessible (`/path`,
/// `~/path`, `file:///path`); `None` for ssh/https URLs, and for `~` without a
/// home directory.
pub open spec fn local_path(remote: Seq<char>, home: Option<Seq<char>>) -> Option<Seq<char>> {
    let path = match text::after_prefix(remote, "file://"@) {
        Some(rest) => Some(rest),
        None => if text::occurs_in(remote, "://"@) || text::occurs_in(remote, "@"@) {
            None
        } else {
            Some(remote)
        },
    };
    match path {
        None => None,
        Some(path) => match text::after_prefix(path, "~/"@) {
            None => Some(path),
            Some(rest) => match home {
                Some(dir) => Some(home_path(dir, rest)),
                None => None,
            },
        },
    }
}

/// The path `rest` below the home directory; an absolute one stands for itself.
pub open spec fn home_path(dir: Seq<char>, rest: Seq<char>) -> Seq<char> {
    if text::starts(rest, "/"@) {
        rest
    } else {
        paths::joined(dir, rest)
    }
}

/// The filesystem path of `remote`, where the home directory is `home`.
pub fn local_remote_path_in(remote: &str, home: Option<&str>) -> (r: Option<String>)
    ensures
        match r {
            Some(path) => local_path(remote@, crate::vault::gkr::optional_text(home)) == Some(
                path@,
            ),
            None => local_path(remote@, crate::vault::gkr::optional_text(home)) is None,
        },
{
    let path = match text::strip_prefix(remote, "file://") {
        Some(rest) => rest,
        None => {
            if text::contains(remote, "://") || text::contains(remote, "@") {
                return None;
            }
            remote.to_owned()
        },
    };
    match text::strip_prefix(path.as_str(), "~/") {
        None => Some(path),
        Some(rest) => match home {
            Some(dir) => {
                if text::strip_prefix(rest.as_str(), "/").is_some() {
                    Some(rest)
                } else {
                    Some(paths::join(dir, rest.as_str()))
                }
            },
            None => None,
        },
    }
}

/// The filesystem path of `remote` if it is locally accessible.
pub fn local_remote_path(remote: &str) -> (r: Option<String>)
    ensures
        exists|home: Option<String>| #[trigger]
            is_user_home_dir(home) && match r {
                Some(path) => local_path(remote@, paths::base_view(home)) == Some(path@),
                None => local_path(remote@, paths::base_view(home)) is None,
            },
{
    let home = user_home_dir();
    assert(is_user_home_dir(home));
    match home {
        Some(dir) => local_remote_path_in(remote, Some(dir.as_str())),
        None => local_remote_path_in(remote, None),
    }
}

/// A URL with a host is never taken for a local path.
pub proof fn urls_are_not_local(remote: Seq<char>, home: Option<Seq<char>>)
    requires
        !text::starts(remote, "file://"@),
        text::occurs_in(remote, "://"@) || text::occurs_in(remote, "@"@),
    ensures
        local_path(remote, home) is None,
{
}

/// A plain path is local as it is; a `file` URL is local without its scheme; and a path
/// below the home directory is local where that is known.
pub proof fn paths_and_file_urls_are_local(path: Seq<char>, home: Option<Seq<char>>)
    requires
        path.len() > 0,
        path[0] == '/',
    ensures
        local_path("file://"@ + path, home) == Some(path),
        !text::occurs_in(path, "://"@) && !text::occurs_in(path, "@"@) ==> local_path(path, home)
            == Some(path),
        home matches Some(dir) ==> (dir.len() > 0 && dir.last() != '/' ==> local_path(
            "file://~"@ + path,
            home,
        ) == Some(
            if path.len() > 1 && path[1] == '/' {
                path.skip(1)
            } else {
                dir + path
            },
        )),
        home is None ==> local_path("file://~"@ + path, home) is None,
{
    reveal_strlit("file://");
    reveal_strlit("file://~");
    reveal_strlit("~/");
    reveal_strlit("/");
    let url = "file://"@ + path;
    text::prefix_and_rest_make_the_text(url, "file://"@, path);
    if text::starts(path, "~/"@) {
        assert(path.subrange(0, 2)[0] == "~/"@[0]);
    }
    if text::starts(path, "file://"@) {
        assert(path.subrange(0, 7)[0] == "file://"@[0]);
    }
    let below = "file://~"@ + path;
    let rest = path.skip(1);
    assert(below =~= "file://"@ + (seq!['~'] + path));
    text::prefix_and_rest_make_the_text(below, "file://"@, seq!['~'] + path);
    assert(seq!['~'] + path =~= "~/"@ + rest);
    text::prefix_and_rest_make_the_text(seq!['~'] + path, "~/"@, rest);
    if let Some(dir) = home {
        if path.len() > 1 && path[1] == '/' {
            assert(rest.subrange(0, 1) =~= "/"@);
        } else {
            if text::starts(rest, "/"@) {
                assert(rest.subrange(0, 1)[0] == "/"@[0]);
            }
            assert(dir + "/"@ + rest =~= dir + path);
        }
    }
}

// ---------------------------------------------------------------------------
// Push
// ---------------------------------------------------------------------------
/// What is to be done next in a push.
pub enum GitPushStage {
    /// Clone the configured branch.
    CloneBranch,
    /// In an emptied working directory, list the references of the remote.
    ListRefs,
    /// Make a fresh repository on the configured branch, with the remote as its
    /// origin.
    Seed,
    /// Point the remote's HEAD at the configured branch.
    SyncHead,
    /// Clone the remote's default branch.
    CloneDefault,
    /// Ask which branch is checked out.
    HeadBranch,
    /// Write the blob, add it, commit and push to this branch.
    Commit { branch: String },
    /// The push failed.
    Failed(Error),
}

/// Which branch a push lands on:
/// - The configured branch, if the remote already has it.
/// - An empty remote is seeded from scratch (and its HEAD pointed at our branch,
///   so a plain `git clone` finds the data).
/// - A non-empty remote without our branch is adopted on its *default* branch,
///   extending the existing history instead of forking it.
pub struct GitPush {
    /// The configured branch.
    pub branch: String,
    pub stage: GitPushStage,
}

impl GitPush {
    /// What holds at every stage: a push that has come to its commit has a branch
    /// to go to.
    pub open spec fn inv(&self) -> bool {
        self.stage matches GitPushStage::Commit { branch } ==> branch@ == self.branch@
            || branch@.len() > 0
    }

    fn at(self, stage: GitPushStage) -> (next: Self)
        ensures
            next.branch == self.branch,
            next.stage == stage,
    {
        GitPush { branch: self.branch, stage }
    }

    /// The configured branch was cloned, or could not be: the remote is then
    /// asked what it has.
    pub fn branch_cloned(self, cloned: Result<GitOutput, Error>) -> (next: Self)
        requires
            self.stage is CloneBranch,
        ensures
            next.inv(),
            next.branch == self.branch,
            match cloned {
                Ok(_) => next.stage matches GitPushStage::Commit { branch } && branch@
                    == self.branch@,
                Err(_) => next.stage is ListRefs,
            },
    {
        match cloned {
            Ok(_) => {
                let branch = self.branch.clone();
                self.at(GitPushStage::Commit { branch })
            },
            Err(_) => self.at(GitPushStage::ListRefs),
        }
    }

    /// The references of the remote were listed.
    pub fn refs_listed(self, listed: Result<GitOutput, Error>) -> (next: Self)
        requires
            self.stage is ListRefs,
        ensures
            next.inv(),
            next.branch == self.branch,
            match listed {
                Ok(out) => if nothing_listed(out.stdout@) {
                    next.stage is Seed
                } else {
                    next.stage is CloneDefault
                },
                Err(e) => next.stage == GitPushStage::Failed(e),
            },
    {
        match listed {
            Ok(out) => {
                if no_refs(out.stdout.as_str()) {
                    self.at(GitPushStage::Seed)
                } else {
                    self.at(GitPushStage::CloneDefault)
                }
            },
            Err(e) => self.at(GitPushStage::Failed(e)),
        }
    }

    /// The fresh repository was made.
    pub fn seeded(self, made: Result<(), Error>) -> (next: Self)
        requires
            self.stage is Seed,
        ensures
            next.inv(),
            next.branch == self.branch,
            match made {
                Ok(()) => next.stage is SyncHead,
                Err(e) => next.stage == GitPushStage::Failed(e),
            },
    {
        match made {
            Ok(()) => self.at(GitPushStage::SyncHead),
            Err(e) => self.at(GitPushStage::Failed(e)),
        }
    }

    /// The remote's HEAD was pointed at the configured branch, as far as that was
    /// possible.
    pub fn head_synced(self) -> (next: Self)
        requires
            self.stage is SyncHead,
        ensures
            next.inv(),
            next.branch == self.branch,
            next.stage matches GitPushStage::Commit { branch } && branch@ == self.branch@,
    {
        let branch = self.branch.clone();
        self.at(GitPushStage::Commit { branch })
    }

    /// The default branch was cloned.
    pub fn default_cloned(self, cloned: Result<GitOutput, Error>) -> (next: Self)
        requires
            self.stage is CloneDefault,
        ensures
            next.inv(),
            next.branch == self.branch,
            match cloned {
                Ok(_) => next.stage is HeadBranch,
                Err(e) => next.stage == GitPushStage::Failed(e),
            },
    {
        match cloned {
            Ok(_) => self.at(GitPushStage::HeadBranch),
            Err(e) => self.at(GitPushStage::Failed(e)),
        }
    }

    /// The branch that is checked out was asked for.
    pub fn head_known(self, answer: Result<GitOutput, Error>) -> (next: Self)
        requires
            self.stage is HeadBranch,
        ensures
            next.inv(),
            next.branch == self.branch,
            match answer {
                Err(e) => next.stage == GitPushStage::Failed(e),
                Ok(out) => match next.stage {
                    GitPushStage::Commit { branch } => branch@ == text::trimmed(out.stdout@)
                        && branch@.len() > 0 && branch@ != "HEAD"@,
                    GitPushStage::Failed(e) => is_git_error(
                        e,
                        output_text(out),
                        command_text("git rev-parse"@, "HEAD"@),
                    ) && (text::trimmed(out.stdout@).len() == 0 || text::trimmed(out.stdout@)
                        == "HEAD"@),
                    _ => false,
                },
            },
    {
        match answer {
            Ok(out) => match head_branch(&out) {
                Ok(branch) => self.at(GitPushStage::Commit { branch }),
                Err(e) => self.at(GitPushStage::Failed(e)),
            },
            Err(e) => self.at(GitPushStage::Failed(e)),
        }
    }
}

/// A push lands on the configured branch where the remote has it.
pub proof fn push_lands_on_the_configured_branch(
    backend: &GitBackend,
    begun: GitPush,
    cloned: GitOutput,
    next: GitPush,
)
    requires
        call_ensures(GitBackend::push, (backend,), begun),
        call_ensures(GitPush::branch_cloned, (begun, Ok(cloned)), next),
    ensures
        next.stage matches GitPushStage::Commit { branch } && branch@ == backend.branch@,
{
}

/// A push to an empty remote, which lists nothing but white space, lands on the
/// configured branch of a fresh repository.
pub proof fn push_seeds_an_empty_remote(
    backend: &GitBackend,
    begun: GitPush,
    e: Error,
    asked: GitPush,
    listed: GitOutput,
    told: GitPush,
    made: GitPush,
    next: GitPush,
)
    requires
        call_ensures(GitBackend::push, (backend,), begun),
        call_ensures(GitPush::branch_cloned, (begun, Err(e)), asked),
        call_ensures(GitPush::refs_listed, (asked, Ok(listed)), told),
        forall|i: int|
            0 <= i < listed.stdout@.len() ==> text::is_space(#[trigger] listed.stdout@[i]),
        call_ensures(GitPush::seeded, (told, Ok(())), made),
        call_ensures(GitPush::head_synced, (made,), next),
    ensures
        asked.stage is ListRefs && told.stage is Seed && made.stage is SyncHead,
        next.stage matches GitPushStage::Commit { branch } && branch@ == backend.branch@,
{
    let found = listed.stdout@;
    let none = Seq::<char>::empty();
    text::trimming_ignores_the_margins(found, none, none);
    assert(found + none + none =~= found);
}

/// A push to a remote that has branches, but not the configured one, lands on the branch
/// that a clone of it checks out, never on another.
pub proof fn push_adopts_the_default_branch(
    backend: &GitBackend,
    begun: GitPush,
    e: Error,
    asked: GitPush,
    listed: GitOutput,
    told: GitPush,
    cloned: GitOutput,
    adopted: GitPush,
    head: GitOutput,
    next: GitPush,
    at: int,
)
    requires
        call_ensures(GitBackend::push, (backend,), begun),
        call_ensures(GitPush::branch_cloned, (begun, Err(e)), asked),
        call_ensures(GitPush::refs_listed, (asked, Ok(listed)), told),
        0 <= at < listed.stdout@.len(),
        !text::is_space(listed.stdout@[at]),
        call_ensures(GitPush::default_cloned, (told, Ok(cloned)), adopted),
        call_ensures(GitPush::head_known, (adopted, Ok(head)), next),
    ensures
        told.stage is CloneDefault && adopted.stage is HeadBranch,
        match next.stage {
            GitPushStage::Commit { branch } => branch@ == text::trimmed(head.stdout@)
                && branch@.len() > 0 && branch@ != "HEAD"@,
            GitPushStage::Failed(_) => text::trimmed(head.stdout@).len() == 0 || text::trimmed(
                head.stdout@,
            ) == "HEAD"@,
            _ => false,
        },
{
    let (lo, hi) = text::trimming_leaves_the_core(listed.stdout@);
    assert(lo <= at < hi);
}

/// A clone is of the remote into the working directory, neither of which can be taken
/// for an option, and of a branch exactly where one is asked for.
pub proof fn clone_is_of_the_remote(
    remote: &str,
    work: &str,
    branch: Option<&str>,
    r: Vec<String>,
)
    requires
        call_ensures(clone_args, (remote, work, branch), r),
    ensures
        ({
            let args = text::views(r@);
            let n = args.len() as int;
            &&& n >= 4 && args[0] == "clone"@
            &&& args[n - 3] == "--"@ && args[n - 2] == remote@ && args[n - 1] == work@
            &&& match branch {
                Some(name) => n == 6 && args[1] == "--branch"@ && args[2] == name@,
                None => n == 4,
            }
        }),
{
}

/// The error of a failed git command tells what the command printed and what it was
/// about; a command that succeeded gives its output.
pub proof fn git_errors_tell_what_was_printed(
    run: Result<GitOutput, String>,
    cmd: &str,
    ctx: &str,
    r: Result<GitOutput, Error>,
)
    requires
        call_ensures(git_outcome, (run, cmd, ctx), r),
    ensures
        r is Ok <==> (run matches Ok(out) && out.code == Some(0i32)),
        r matches Ok(out) ==> run == Ok::<GitOutput, String>(out),
        r matches Err(e) ==> (e matches Error::Sync(
            SyncError::Backend(SyncBackendError::Git { message, command }),
        ) && text::occurs_in(command@, cmd@) && text::occurs_in(command@, ctx@) && match run {
            Ok(out) => text::occurs_in(message@, out.stdout@) && text::ends(message@, out.stderr@),
            Err(cause) => message@ == cause@,
        }),
{
    if let Err(Error::Sync(SyncError::Backend(SyncBackendError::Git { message, command }))) = r {
        let tail = " ("@ + ctx@ + ")"@;
        let none = Seq::<char>::empty();
        assert(command@ =~= none + cmd@ + tail);
        text::part_occurs(none, cmd@, tail);
        assert(command@ == (cmd@ + " ("@) + ctx@ + ")"@);
        text::part_occurs(cmd@ + " ("@, ctx@, ")"@);
        if let Ok(out) = run {
            let head = exit_text(out.code) + "\nstdout: "@;
            assert(message@ =~= head + out.stdout@ + ("\nstderr: "@ + out.stderr@));
            text::part_occurs(head, out.stdout@, "\nstderr: "@ + out.stderr@);
            assert(message@ == (head + out.stdout@ + "\nstderr: "@) + out.stderr@);
            text::ends_split_the_text(message@, out.stderr@);
        }
    }
}

/// A commit goes well where git says success, or that there was nothing to commit, on
/// either of its outputs.
pub proof fn nothing_to_commit_is_no_failure(
    run: Result<GitOutput, String>,
    note: &str,
    r: Result<(), Error>,
)
    requires
        call_ensures(commit_outcome, (run, note), r),
    ensures
        r is Ok <==> (run matches Ok(out) && {
            ||| out.code == Some(0i32)
            ||| text::occurs_in(out.stdout@, "nothing to commit"@)
            ||| text::occurs_in(out.stdout@, "no changes"@)
            ||| text::occurs_in(out.stderr@, "nothing to commit"@)
            ||| text::occurs_in(out.stderr@, "no changes"@)
        }),
{
}

/// The note of a commit is the given one as it is, unless there is nothing but white
/// space in it: then it ends in the time.
pub proof fn given_note_is_kept(message: Option<&str>, now: &str, r: String)
    requires
        call_ensures(commit_message_at, (message, now), r),
    ensures
        message matches Some(note) ==> ((exists|i: int|
            0 <= i < note@.len() && !text::is_space(#[trigger] note@[i])) ==> r@ == note@),
        message is None ==> text::ends(r@, now@),
        message matches Some(note) ==> ((forall|i: int|
            0 <= i < note@.len() ==> text::is_space(#[trigger] note@[i])) ==> text::ends(r@, now@)),
{
    text::ends_split_the_text("avpm sync push "@ + now@, now@);
    if let Some(note) = message {
        let (lo, hi) = text::trimming_leaves_the_core(note@);
        if exists|i: int| 0 <= i < note@.len() && !text::is_space(#[trigger] note@[i]) {
            let i = choose|i: int| 0 <= i < note@.len() && !text::is_space(#[trigger] note@[i]);
            assert(lo <= i < hi);
        } else if lo < hi {
            assert(text::is_space(note@[lo]));
        }
    }
}

/// An exit code is told by its number, with a sign where it is negative.
pub proof fn exit_code_is_told(code: i32)
    ensures
        code >= 0 ==> text::occurs_in(exit_text(Some(code)), text::decimal(code as nat))
            && !exit_text(Some(code)).contains('-'),
        code < 0 ==> text::occurs_in(
            exit_text(Some(code)),
            seq!['-'] + text::decimal((-code) as nat),
        ),
        exit_text(None) == "exit None"@,
{
    reveal_strlit("-");
    reveal_strlit("exit Some(");
    reveal_strlit(")");
    assert("-"@ =~= seq!['-']);
    let shown = signed_decimal(code as int);
    text::part_occurs("exit Some("@, shown, ")"@);
    if code >= 0 {
        text::numeral_stands_for_the_number(code as nat);
        let whole = exit_text(Some(code));
        assert forall|i: int| 0 <= i < whole.len() implies #[trigger] whole[i] != '-' by {
            if i < 10 {
                assert(whole[i] == "exit Some("@[i]);
            } else if i < 10 + shown.len() {
                assert(whole[i] == shown[i - 10]);
            } else {
                assert(whole[i] == ")"@[i - 10 - shown.len()]);
            }
        }
    }
}

/// A repository is bare where git says so and succeeds; a remote has nothing where nothing
/// but white space is listed.
pub proof fn answers_are_read_without_margins(
    out: &GitOutput,
    bare: bool,
    listing: &str,
    none: bool,
)
    requires
        call_ensures(says_bare, (out,), bare),
        call_ensures(no_refs, (listing,), none),
    ensures
        out.stdout@ == "true\n"@ ==> bare == (out.code == Some(0i32)),
        out.stdout@ == "false\n"@ ==> !bare,
        none <==> forall|i: int|
            0 <= i < listing@.len() ==> text::is_space(#[trigger] listing@[i]),
{
    reveal_strlit("true");
    reveal_strlit("true\n");
    reveal_strlit("false");
    reveal_strlit("false\n");
    let empty = Seq::<char>::empty();
    assert("true\n"@ =~= empty + "true"@ + seq!['\n']);
    assert("false\n"@ =~= empty + "false"@ + seq!['\n']);
    text::trimming_ignores_the_margins(empty, "true"@, seq!['\n']);
    text::trimming_ignores_the_margins(empty, "false"@, seq!['\n']);
    assert("true"@.len() != "false"@.len());
    let (lo, hi) = text::trimming_leaves_the_core(listing@);
    if lo < hi {
        assert(!text::is_space(listing@[lo]));
    }
}

/// git never asks for credentials.
pub proof fn git_never_prompts(r: Vec<(&'static str, &'static str)>)
    requires
        call_ensures(git_environment, (), r),
    ensures
        exists|i: int|
            0 <= i < r@.len() && (#[trigger] r@[i]).0@ == "GIT_TERMINAL_PROMPT"@ && r@[i].1@
                == "0"@,
{
    let views = r@.map_values(|p: (&'static str, &'static str)| (p.0@, p.1@));
    assert(views == git_env());
    assert(views.len() == r@.len());
    assert(views[0] == (r@[0].0@, r@[0].1@));
}

// ---------------------------------------------------------------------------
// Pull
// ---------------------------------------------------------------------------
/// What a pull and a probe do after the clone of the configured branch: where it
/// failed, the default branch is tried, so that a device never gets stuck on a
/// differently-named branch.
#[derive(Debug, Clone, Copy, PartialEq, Eq, Structural)]
pub enum GitFetchStage {
    /// The blob can be looked for.
    Cloned,
    /// Clone the default branch.
    CloneDefault,
}

/// What to do after the clone of the configured branch.
pub fn after_branch_clone(cloned: &Result<GitOutput, Error>) -> (r: GitFetchStage)
    ensures
        r == if cloned is Ok {
            GitFetchStage::Cloned
        } else {
            GitFetchStage::CloneDefault
        },
{
    match cloned {
        Ok(_) => GitFetchStage::Cloned,
        Err(_) => GitFetchStage::CloneDefault,
    }
}

/// A remote that cannot be cloned is never taken for one without a blob: only a clone that
/// lacks it says so, and a branch that could not be cloned leads to the default one.
pub proof fn failed_clone_is_never_absence(
    first: Result<GitOutput, Error>,
    stage: GitFetchStage,
    cloned: Result<GitOutput, Error>,
    found: bool,
    probed: Result<bool, Error>,
    blob: Option<Vec<u8>>,
    pulled: Result<Vec<u8>, Error>,
)
    requires
        call_ensures(after_branch_clone, (&first,), stage),
        call_ensures(probed_blob, (cloned, found), probed),
        call_ensures(pulled_blob, (blob,), pulled),
    ensures
        stage == GitFetchStage::Cloned <==> first is Ok,
        probed == Ok::<bool, Error>(false) <==> cloned is Ok && !found,
        probed == Ok::<bool, Error>(true) <==> cloned is Ok && found,
        cloned matches Err(e) ==> probed == Err::<bool, Error>(e),
        pulled matches Ok(bytes) ==> blob == Some(bytes),
        pulled is Err <==> blob is None,
{
}

/// What a pull gives, once something is cloned: the blob, or `RemoteNotFound`
/// where the clone has none.
pub fn pulled_blob(blob: Option<Vec<u8>>) -> (r: Result<Vec<u8>, Error>)
    ensures
        match blob {
            Some(bytes) => r == Ok::<Vec<u8>, Error>(bytes),
            None => r == Err::<Vec<u8>, Error>(
                Error::Sync(SyncError::Backend(SyncBackendError::RemoteNotFound)),
            ),
        },
{
    match blob {
        Some(bytes) => Ok(bytes),
        None => Err(Error::Sync(SyncError::Backend(SyncBackendError::RemoteNotFound))),
    }
}

/// What a probe says, once the default branch was tried too: whether the clone
/// has the blob. A remote that cannot be cloned is a failure, never "absent".
pub fn probed_blob(cloned: Result<GitOutput, Error>, found: bool) -> (r: Result<bool, Error>)
    ensures
        match cloned {
            Ok(_) => r == Ok::<bool, Error>(found),
            Err(e) => r == Err::<bool, Error>(e),
        },
{
    match cloned {
        Ok(_) => Ok(found),
        Err(e) => Err(e),
    }
}

} // verus!
