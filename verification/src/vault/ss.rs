//! Secret Service helpers for the keyring backend.
//!
//! Creating/unlocking the (login) default collection has two paths, tried in
//! order:
//!
//! 1. **Terminal, via the gnome-keyring control socket** ([`crate::vault::gkr`])
//!    - prompt for the keyring password in the terminal and send it over the
//!    daemon's private control protocol. No GUI dependency, so it works on WSL2
//!    and pure headless boxes. A wrong password is a distinct, retryable
//!    outcome.
//! 2. **GUI prompt, via the Secret Service** - for providers without a control
//!    socket.
//!
//! The way there is a [`Bootstrap`]: its stage says what is to be done next, and
//! the method named after what happened takes the outcome and gives the next
//! stage, until it is `Ready` or `Failed`.

use vstd::prelude::*;

use crate::error::Error;
use crate::text;
use crate::vault::error::VaultError;
use crate::vault::gkr::{Unavailable, UnlockOutcome};
use crate::vault::secret::VaultSecret;

verus! {

/// Whether a GUI prompt can be rendered: `display` and `wayland` say whether
/// `DISPLAY` and `WAYLAND_DISPLAY` are set.
#[must_use]
pub fn gui_available(display: bool, wayland: bool) -> (r: bool)
    ensures
        r == (display || wayland),
{
    display || wayland
}

/// The display variables of a process, for the environment of a prompter:
/// exactly those that are set.
#[must_use]
pub fn display_env_vars(display: Option<String>, wayland: Option<String>) -> (r: Vec<
    (&'static str, String),
>)
    ensures
        r@.len() == (if display is Some {
            1int
        } else {
            0
        }) + (if wayland is Some {
            1int
        } else {
            0
        }),
        display matches Some(value) ==> r@[0].0@ == "DISPLAY"@ && r@[0].1 == value,
        wayland matches Some(value) ==> r@.last().0@ == "WAYLAND_DISPLAY"@ && r@.last().1 == value,
{
    let mut vars: Vec<(&'static str, String)> = Vec::new();
    if let Some(value) = display {
        vars.push(("DISPLAY", value));
    }
    if let Some(value) = wayland {
        vars.push(("WAYLAND_DISPLAY", value));
    }
    vars
}

/// State of the default Secret Service collection, as observed by a read-only
/// probe.
#[derive(Debug, Clone, Copy, PartialEq, Eq, Structural)]
pub enum DefaultCollectionStatus {
    /// The default collection exists and is unlocked.
    Ready,
    /// The default collection exists but is locked.
    ExistsLocked,
    /// No default collection exists.
    Absent,
}

/// Should the `Auto` backend resolve to the keyring, given the (possibly failed)
/// default-collection probe, GUI availability, and whether the collection can be
/// bootstrapped headlessly?
///
/// - `None` (daemon unreachable / probe errored): file
/// - `Ready` or `ExistsLocked`: keyring (the lock only affects whether a
///   non-interactive caller must first `avpm unlock`; it never falls back to
///   file, which would split keyring/file data)
/// - `Absent` + (GUI reachable or control socket present): keyring
/// - `Absent` + neither: file (nothing can create the collection here)
#[must_use]
pub fn auto_prefers_keyring(
    status: Option<DefaultCollectionStatus>,
    gui: bool,
    headless_bootstrap: bool,
) -> (r: bool)
    ensures
        r == match status {
            Some(DefaultCollectionStatus::Absent) => gui || headless_bootstrap,
            Some(_) => true,
            None => false,
        },
{
    match status {
        Some(DefaultCollectionStatus::Ready) => true,
        Some(DefaultCollectionStatus::ExistsLocked) => true,
        Some(DefaultCollectionStatus::Absent) => gui || headless_bootstrap,
        None => false,
    }
}

/// How [`ensure_default_collection`] should proceed for a given default
/// collection state.
#[derive(Debug, Clone, Copy, PartialEq, Eq, Structural)]
pub enum BootstrapRoute {
    /// The collection is ready; do nothing.
    AlreadyReady,
    /// Not ready and the caller is non-interactive; refuse with
    /// [`VaultError::KeyringLocked`].
    RefuseNonInteractive,
    /// Prompt in the terminal and drive the gnome-keyring control socket.
    ControlSocket,
    /// Fall back to the Secret Service GUI prompt.
    GuiPrompt,
}

/// The routing table.
pub open spec fn route(
    status: DefaultCollectionStatus,
    interactive: bool,
    control: bool,
) -> BootstrapRoute {
    if status == DefaultCollectionStatus::Ready {
        BootstrapRoute::AlreadyReady
    } else if !interactive {
        BootstrapRoute::RefuseNonInteractive
    } else if control {
        BootstrapRoute::ControlSocket
    } else {
        BootstrapRoute::GuiPrompt
    }
}

/// How to proceed for a given default collection state.
#[must_use]
pub fn bootstrap_route(
    status: DefaultCollectionStatus,
    interactive: bool,
    control: bool,
) -> (r: BootstrapRoute)
    ensures
        r == route(status, interactive, control),
{
    match (status, interactive, control) {
        (DefaultCollectionStatus::Ready, _, _) => BootstrapRoute::AlreadyReady,
        (_, false, _) => BootstrapRoute::RefuseNonInteractive,
        (_, true, true) => BootstrapRoute::ControlSocket,
        (_, true, false) => BootstrapRoute::GuiPrompt,
    }
}

// ---------------------------------------------------------------------------
// Probe
// ---------------------------------------------------------------------------
/// What a read-only probe of the Secret Service came upon, with the description
/// of a failure.
#[derive(Debug)]
pub enum CollectionProbe {
    /// No daemon is reachable.
    Unreachable(String),
    /// The `default` alias resolves to no collection.
    NoCollection,
    /// The alias could not be read.
    Unreadable(String),
    /// The lock state could not be read.
    LockUnknown(String),
    /// The collection exists; whether it is locked.
    Found { locked: bool },
}

/// Secret Service failure `cause` while doing `what`, as keyring unavailability.
pub open spec fn is_service_error(e: Error, what: Seq<char>, cause: Seq<char>) -> bool {
    e matches Error::Vault(VaultError::KeyringUnavailable { message, source }) && message@ == what
        + ": "@ + cause && source@ == cause
}

/// Wrap a Secret Service failure as keyring-backend unavailability.
pub fn service_error(what: &str, cause: String) -> (e: Error)
    ensures
        is_service_error(e, what@, cause@),
{
    Error::Vault(
        VaultError::KeyringUnavailable {
            message: text::join3(what, ": ", cause.as_str()),
            source: cause,
        },
    )
}

/// What a probe says of the default collection. An `Err` means the daemon itself
/// could not be asked (callers treat that as "keyring not usable").
pub fn default_collection_status(probe: CollectionProbe) -> (r: Result<
    DefaultCollectionStatus,
    Error,
>)
    ensures
        match probe {
            CollectionProbe::Unreachable(cause) => r matches Err(e) && is_service_error(
                e,
                "secret service unreachable"@,
                cause@,
            ),
            CollectionProbe::NoCollection => r == Ok::<DefaultCollectionStatus, Error>(
                DefaultCollectionStatus::Absent,
            ),
            CollectionProbe::Unreadable(cause) => r matches Err(e) && is_service_error(
                e,
                "could not read default collection"@,
                cause@,
            ),
            CollectionProbe::LockUnknown(cause) => r matches Err(e) && is_service_error(
                e,
                "collection probe failed"@,
                cause@,
            ),
            CollectionProbe::Found { locked } => r == Ok::<DefaultCollectionStatus, Error>(
                if locked {
                    DefaultCollectionStatus::ExistsLocked
                } else {
                    DefaultCollectionStatus::Ready
                },
            ),
        },
{
    match probe {
        CollectionProbe::Unreachable(cause) => Err(
            service_error("secret service unreachable", cause),
        ),
        CollectionProbe::NoCollection => Ok(DefaultCollectionStatus::Absent),
        CollectionProbe::Unreadable(cause) => Err(
            service_error("could not read default collection", cause),
        ),
        CollectionProbe::LockUnknown(cause) => Err(
            service_error("collection probe failed", cause),
        ),
        CollectionProbe::Found { locked } => {
            if locked {
                Ok(DefaultCollectionStatus::ExistsLocked)
            } else {
                Ok(DefaultCollectionStatus::Ready)
            }
        },
    }
}

// ---------------------------------------------------------------------------
// Bootstrap
// ---------------------------------------------------------------------------
/// How many terminal attempts the user gets when the keyring password is
/// rejected.
pub const MAX_PASSWORD_ATTEMPTS: u8 = 3;

/// What is to be done next.
pub enum BootstrapStage {
    /// Prompt for a new keyring password.
    NewPassword,
    /// Prompt for it once more.
    ConfirmPassword(VaultSecret),
    /// Create the data directory of the keyring daemon.
    CreateDir(VaultSecret),
    /// Unlock over the control socket, which creates the keyring.
    ControlCreate(VaultSecret),
    /// Prompt for the keyring password.
    Password { attempt: u8 },
    /// Unlock over the control socket.
    ControlUnlock { attempt: u8, password: VaultSecret },
    /// Probe the default collection anew.
    Reprobe,
    /// Hand the display variables to the bus, and connect to the Secret Service.
    GuiConnect,
    /// Create the data directory of the keyring daemon, for a GUI prompt.
    GuiCreateDir,
    /// Create the default collection (GUI prompt).
    GuiCreate,
    /// Unlock the default collection (GUI prompt).
    GuiUnlock,
    /// The collection is ready.
    Ready,
    /// It cannot be made ready.
    Failed(Error),
}

/// The way to a default collection that exists and is unlocked.
pub struct Bootstrap {
    /// The state that was found.
    pub status: DefaultCollectionStatus,
    /// Whether a GUI prompt can be rendered.
    pub gui: bool,
    pub stage: BootstrapStage,
    /// What to tell the user.
    pub notice: Option<String>,
}

/// The notice ahead of the prompt for a new keyring password.
pub const CREATE_NOTICE: &'static str =
    "Creating the OS keyring ('login' collection). Choose a password to\n\
     encrypt it; you will re-enter it once per reboot or daemon restart\n\
     (via `avpm unlock`). It is separate from your vault passwords and\n\
     from the sync master passphrase.";

/// The error where nothing can create the collection.
pub const NO_WAY_TO_CREATE: &'static str =
    "default collection absent and no way to create it here (no \
     GUI for a prompt and no gnome-keyring control socket); run \
     `avpm unlock` where one is available, or set [storage] \
     backend = \"file\"";

/// Ensure the default collection exists and is unlocked, given its state,
/// whether the caller is interactive, whether there is a control socket and
/// whether a GUI prompt can be rendered.
///
/// - Exists and unlocked: no-op.
/// - Absent or locked, interactively: terminal password over the gnome-keyring
///   control socket when one exists, falling back to a GUI prompt otherwise.
/// - Absent or locked, non-interactively: [`VaultError::KeyringLocked`] - never
///   block a script on a prompt.
/// - Absent without any bootstrap option: [`VaultError::KeyringUnavailable`] with
///   a hint to use the file backend.
pub fn ensure_default_collection(
    status: DefaultCollectionStatus,
    interactive: bool,
    control: bool,
    gui: bool,
) -> (r: Bootstrap)
    ensures
        r.inv(),
        r.status == status && r.gui == gui,
        match route(status, interactive, control) {
            BootstrapRoute::AlreadyReady => r.stage is Ready && r.notice is None,
            BootstrapRoute::RefuseNonInteractive => r.stage == BootstrapStage::Failed(
                Error::Vault(VaultError::KeyringLocked),
            ) && r.notice is None,
            BootstrapRoute::ControlSocket => if status == DefaultCollectionStatus::Absent {
                r.stage is NewPassword && r.says(CREATE_NOTICE@)
            } else {
                r.stage == (BootstrapStage::Password { attempt: 1 }) && r.notice is None
            },
            BootstrapRoute::GuiPrompt => r.stage is GuiConnect && r.notice is None,
        },
{
    match bootstrap_route(status, interactive, control) {
        BootstrapRoute::AlreadyReady => Bootstrap {
            status,
            gui,
            stage: BootstrapStage::Ready,
            notice: None,
        },
        BootstrapRoute::RefuseNonInteractive => Bootstrap {
            status,
            gui,
            stage: BootstrapStage::Failed(Error::Vault(VaultError::KeyringLocked)),
            notice: None,
        },
        BootstrapRoute::ControlSocket => match status {
            DefaultCollectionStatus::Absent => Bootstrap {
                status,
                gui,
                stage: BootstrapStage::NewPassword,
                notice: Some(CREATE_NOTICE.to_owned()),
            },
            _ => Bootstrap {
                status,
                gui,
                stage: BootstrapStage::Password { attempt: 1 },
                notice: None,
            },
        },
        BootstrapRoute::GuiPrompt => Bootstrap {
            status,
            gui,
            stage: BootstrapStage::GuiConnect,
            notice: None,
        },
    }
}

/// The outcome of making a directory at `path`, where there is one to make.
pub open spec fn is_dir_error(e: Error, path: Seq<char>, cause: Seq<char>) -> bool {
    is_service_error(e, "could not create the keyrings data dir at "@ + path, cause)
}

/// The error where the data directory of the keyring daemon could not be made.
pub fn keyrings_dir_error(path: &str, cause: String) -> (e: Error)
    ensures
        is_dir_error(e, path@, cause@),
{
    let what = text::join2("could not create the keyrings data dir at ", path);
    service_error(what.as_str(), cause)
}

impl Bootstrap {
    /// What holds at every stage: the attempts are counted within their limit; a
    /// new password is only asked for where the collection is absent, the old one
    /// only where it is locked; and a GUI prompt is only shown where one can be
    /// rendered, or to unlock what exists.
    pub open spec fn inv(&self) -> bool {
        match self.stage {
            BootstrapStage::NewPassword | BootstrapStage::ConfirmPassword(_)
            | BootstrapStage::CreateDir(_) | BootstrapStage::ControlCreate(_) => self.status
                == DefaultCollectionStatus::Absent,
            BootstrapStage::Password { attempt } => self.status
                == DefaultCollectionStatus::ExistsLocked && 1 <= attempt <= MAX_PASSWORD_ATTEMPTS,
            BootstrapStage::ControlUnlock { attempt, password } => self.status
                == DefaultCollectionStatus::ExistsLocked && 1 <= attempt <= MAX_PASSWORD_ATTEMPTS,
            BootstrapStage::GuiCreateDir | BootstrapStage::GuiCreate => self.status
                == DefaultCollectionStatus::Absent && self.gui,
            BootstrapStage::GuiUnlock => self.status == DefaultCollectionStatus::ExistsLocked,
            BootstrapStage::Reprobe | BootstrapStage::GuiConnect => self.status
                != DefaultCollectionStatus::Ready,
            _ => true,
        }
    }

    /// The notice is `text`.
    pub open spec fn says(&self, text: Seq<char>) -> bool {
        self.notice matches Some(notice) && notice@ == text
    }

    /// The same way at another stage, with nothing to tell.
    pub open spec fn quietly(&self, next: Self) -> bool {
        next.status == self.status && next.gui == self.gui && next.notice is None
    }

    fn at(self, stage: BootstrapStage) -> (next: Self)
        ensures
            self.quietly(next),
            next.stage == stage,
    {
        Bootstrap { status: self.status, gui: self.gui, stage, notice: None }
    }

    fn telling(self, stage: BootstrapStage, notice: String) -> (next: Self)
        ensures
            next.status == self.status && next.gui == self.gui,
            next.stage == stage,
            next.notice == Some(notice),
    {
        Bootstrap { status: self.status, gui: self.gui, stage, notice: Some(notice) }
    }

    /// A new password was typed. An empty one is asked for again.
    pub fn new_password_entered(self, typed: Result<VaultSecret, Error>) -> (next: Self)
        requires
            self.inv(),
            self.stage is NewPassword,
        ensures
            next.inv(),
            next.status == self.status && next.gui == self.gui,
            match typed {
                Ok(secret) => if secret@.len() == 0 {
                    next.stage is NewPassword && next.says(
                        "the OS keyring password must not be empty; try again"@,
                    )
                } else {
                    next.stage == BootstrapStage::ConfirmPassword(secret) && next.notice is None
                },
                Err(e) => next.stage == BootstrapStage::Failed(e) && next.notice is None,
            },
    {
        match typed {
            Ok(secret) => {
                if secret.is_empty() {
                    self.telling(
                        BootstrapStage::NewPassword,
                        "the OS keyring password must not be empty; try again".to_owned(),
                    )
                } else {
                    self.at(BootstrapStage::ConfirmPassword(secret))
                }
            },
            Err(e) => self.at(BootstrapStage::Failed(e)),
        }
    }

    /// The new password was typed once more. Where the two differ, both are asked
    /// for again.
    pub fn new_password_confirmed(self, typed: Result<VaultSecret, Error>) -> (next: Self)
        requires
            self.inv(),
            self.stage is ConfirmPassword,
        ensures
            next.inv(),
            next.status == self.status && next.gui == self.gui,
            self.stage matches BootstrapStage::ConfirmPassword(first) && match typed {
                Ok(second) => if first@ == second@ {
                    next.stage == BootstrapStage::CreateDir(first) && next.notice is None
                } else {
                    next.stage is NewPassword && next.says("passwords do not match; try again"@)
                },
                Err(e) => next.stage == BootstrapStage::Failed(e) && next.notice is None,
            },
    {
        let Bootstrap { status, gui, stage, notice: _ } = self;
        let first = match stage {
            BootstrapStage::ConfirmPassword(first) => first,
            other => {
                return Bootstrap { status, gui, stage: other, notice: None };
            },
        };
        match typed {
            Ok(second) => {
                if text::same(first.as_str(), second.as_str()) {
                    Bootstrap { status, gui, stage: BootstrapStage::CreateDir(first), notice: None }
                } else {
                    Bootstrap {
                        status,
                        gui,
                        stage: BootstrapStage::NewPassword,
                        notice: Some("passwords do not match; try again".to_owned()),
                    }
                }
            },
            Err(e) => Bootstrap { status, gui, stage: BootstrapStage::Failed(e), notice: None },
        }
    }

    /// The data directory of the keyring daemon was made.
    pub fn dir_created(self, made: Result<(), Error>) -> (next: Self)
        requires
            self.inv(),
            self.stage is CreateDir || self.stage is GuiCreateDir,
        ensures
            next.inv(),
            self.quietly(next),
            match made {
                Ok(()) => match self.stage {
                    BootstrapStage::CreateDir(password) => next.stage
                        == BootstrapStage::ControlCreate(password),
                    _ => next.stage is GuiCreate,
                },
                Err(e) => next.stage == BootstrapStage::Failed(e),
            },
    {
        let Bootstrap { status, gui, stage, notice: _ } = self;
        let stage = match made {
            Ok(()) => match stage {
                BootstrapStage::CreateDir(password) => BootstrapStage::ControlCreate(password),
                _ => BootstrapStage::GuiCreate,
            },
            Err(e) => BootstrapStage::Failed(e),
        };
        Bootstrap { status, gui, stage, notice: None }
    }

    /// The keyring password was typed.
    pub fn password_entered(self, typed: Result<VaultSecret, Error>) -> (next: Self)
        requires
            self.inv(),
            self.stage is Password,
        ensures
            next.inv(),
            self.quietly(next),
            self.stage matches BootstrapStage::Password { attempt } && match typed {
                Ok(password) => next.stage == (BootstrapStage::ControlUnlock { attempt, password }),
                Err(e) => next.stage == BootstrapStage::Failed(e),
            },
    {
        let attempt: u8 = match &self.stage {
            BootstrapStage::Password { attempt } => *attempt,
            _ => 1,
        };
        match typed {
            Ok(password) => self.at(BootstrapStage::ControlUnlock { attempt, password }),
            Err(e) => self.at(BootstrapStage::Failed(e)),
        }
    }

    /// The daemon answered over the control socket, or could not be asked. An
    /// unlocked keyring is probed anew; a socket that turns out to be a dead end
    /// leads to the GUI prompt. A wrong password is asked for again, up to the
    /// limit.
    pub fn control_answered(self, answer: Result<UnlockOutcome, Unavailable>) -> (next: Self)
        requires
            self.inv(),
            self.stage is ControlCreate || self.stage is ControlUnlock,
        ensures
            next.inv(),
            next.status == self.status && next.gui == self.gui,
            match answer {
                Ok(UnlockOutcome::Unlocked) => next.stage is Reprobe && next.notice is None,
                Err(_) => next.stage is GuiConnect && next.notice is None,
                Ok(UnlockOutcome::Denied) => match self.stage {
                    BootstrapStage::ControlUnlock { attempt, password } => {
                        &&& next.says(wrong_password(attempt))
                        &&& if attempt < MAX_PASSWORD_ATTEMPTS {
                            next.stage == (BootstrapStage::Password { attempt: (attempt + 1) as u8 })
                        } else {
                            next.stage matches BootstrapStage::Failed(Error::Other(message))
                                && message@ == "OS keyring password rejected "@ + text::decimal(
                                MAX_PASSWORD_ATTEMPTS as nat,
                            ) + " times"@
                        }
                    },
                    _ => next.stage matches BootstrapStage::Failed(Error::Other(message))
                        && message@ == "gnome-keyring rejected creating the login keyring"@
                        && next.notice is None,
                },
            },
    {
        match answer {
            Ok(UnlockOutcome::Unlocked) => self.at(BootstrapStage::Reprobe),
            Err(_) => self.at(BootstrapStage::GuiConnect),
            Ok(UnlockOutcome::Denied) => {
                let attempt: u8 = match &self.stage {
                    BootstrapStage::ControlUnlock { attempt, .. } => *attempt,
                    _ => {
                        return self.at(
                            BootstrapStage::Failed(
                                Error::Other(
                                    "gnome-keyring rejected creating the login keyring".to_owned(),
                                ),
                            ),
                        );
                    },
                };
                let count = text::decimal_text(attempt as u64);
                let limit = text::decimal_text(MAX_PASSWORD_ATTEMPTS as u64);
                let notice = text::join5(
                    "wrong OS keyring password (",
                    count.as_str(),
                    "/",
                    limit.as_str(),
                    ")",
                );
                if attempt < MAX_PASSWORD_ATTEMPTS {
                    self.telling(BootstrapStage::Password { attempt: attempt + 1 }, notice)
                } else {
                    let message = text::join3(
                        "OS keyring password rejected ",
                        limit.as_str(),
                        " times",
                    );
                    self.telling(BootstrapStage::Failed(Error::Other(message)), notice)
                }
            },
        }
    }

    /// The default collection was probed anew. The Secret Service must now *see*
    /// it as ready; where it does not, the control socket does not back the
    /// Secret Service, and the GUI prompt is left.
    pub fn reprobed(self, status: Result<DefaultCollectionStatus, Error>) -> (next: Self)
        requires
            self.inv(),
            self.stage is Reprobe,
        ensures
            next.inv(),
            self.quietly(next),
            match status {
                Ok(DefaultCollectionStatus::Ready) => next.stage is Ready,
                _ => next.stage is GuiConnect,
            },
    {
        match status {
            Ok(DefaultCollectionStatus::Ready) => self.at(BootstrapStage::Ready),
            _ => self.at(BootstrapStage::GuiConnect),
        }
    }

    /// The Secret Service was connected to, or could not be (a description of
    /// why).
    pub fn connected(self, outcome: Result<(), String>) -> (next: Self)
        requires
            self.inv(),
            self.stage is GuiConnect,
        ensures
            next.inv(),
            self.quietly(next),
            match outcome {
                Err(cause) => next.stage matches BootstrapStage::Failed(e) && is_service_error(
                    e,
                    "secret service unreachable"@,
                    cause@,
                ),
                Ok(()) => if self.status == DefaultCollectionStatus::ExistsLocked {
                    next.stage is GuiUnlock
                } else if self.gui {
                    next.stage is GuiCreateDir
                } else {
                    next.stage matches BootstrapStage::Failed(
                        Error::Vault(VaultError::KeyringUnavailable { message, source }),
                    ) && message@ == NO_WAY_TO_CREATE@ && source@ == "no result"@
                },
            },
    {
        match outcome {
            Err(cause) => self.at(
                BootstrapStage::Failed(service_error("secret service unreachable", cause)),
            ),
            Ok(()) => {
                if self.status == DefaultCollectionStatus::ExistsLocked {
                    self.at(BootstrapStage::GuiUnlock)
                } else if self.gui {
                    self.at(BootstrapStage::GuiCreateDir)
                } else {
                    self.at(
                        BootstrapStage::Failed(
                            Error::Vault(
                                VaultError::KeyringUnavailable {
                                    message: NO_WAY_TO_CREATE.to_owned(),
                                    source: "no result".to_owned(),
                                },
                            ),
                        ),
                    )
                }
            },
        }
    }

    /// The GUI prompt was answered, or failed: `what` was being done, and the
    /// cause.
    pub fn prompted(self, outcome: Result<(), (GuiStep, String)>) -> (next: Self)
        requires
            self.inv(),
            self.stage is GuiCreate || self.stage is GuiUnlock,
        ensures
            next.inv(),
            self.quietly(next),
            match outcome {
                Ok(()) => next.stage is Ready,
                Err((step, cause)) => next.stage matches BootstrapStage::Failed(e)
                    && is_service_error(e, gui_step_text(step), cause@),
            },
    {
        match outcome {
            Ok(()) => self.at(BootstrapStage::Ready),
            Err((step, cause)) => {
                let what = match step {
                    GuiStep::Create => "create collection failed",
                    GuiStep::Read => "could not read default collection",
                    GuiStep::Unlock => "unlock failed",
                };
                self.at(BootstrapStage::Failed(service_error(what, cause)))
            },
        }
    }
}

/// A step of the GUI prompt path.
#[derive(Debug, Clone, Copy, PartialEq, Eq, Structural)]
pub enum GuiStep {
    Create,
    Read,
    Unlock,
}

/// What failed in a step of the GUI prompt path.
pub open spec fn gui_step_text(step: GuiStep) -> Seq<char> {
    match step {
        GuiStep::Create => "create collection failed"@,
        GuiStep::Read => "could not read default collection"@,
        GuiStep::Unlock => "unlock failed"@,
    }
}

/// The notice of a wrong password at an attempt.
pub open spec fn wrong_password(attempt: u8) -> Seq<char> {
    "wrong OS keyring password ("@ + text::decimal(attempt as nat) + "/"@ + text::decimal(
        MAX_PASSWORD_ATTEMPTS as nat,
    ) + ")"@
}

// ---------------------------------------------------------------------------
// Laws
// ---------------------------------------------------------------------------
/// The way to a ready collection goes by what was found: one that is ready needs nothing;
/// else a caller that cannot be prompted is refused, and one that can is asked in the
/// terminal where there is a control socket and by a GUI prompt where there is none.
pub proof fn way_goes_by_what_was_found(
    status: DefaultCollectionStatus,
    interactive: bool,
    control: bool,
    gui: bool,
    r: Bootstrap,
)
    requires
        call_ensures(ensure_default_collection, (status, interactive, control, gui), r),
    ensures
        r.status == status && r.gui == gui,
        r.stage is Ready <==> status == DefaultCollectionStatus::Ready,
        r.stage is Failed <==> status != DefaultCollectionStatus::Ready && !interactive,
        r.stage is NewPassword <==> status == DefaultCollectionStatus::Absent && interactive
            && control,
        r.stage is Password <==> status == DefaultCollectionStatus::ExistsLocked && interactive
            && control,
        r.stage is GuiConnect <==> status != DefaultCollectionStatus::Ready && interactive
            && !control,
        r.stage matches BootstrapStage::Password { attempt } ==> attempt == 1,
        r.stage matches BootstrapStage::Failed(e) ==> e == Error::Vault(VaultError::KeyringLocked),
{
}

/// A keyring password can be tried three times: what is sent is what was typed, a wrong
/// one leads to the next attempt, and the third wrong one ends it.
pub proof fn three_wrong_passwords_end_it(
    before: Bootstrap,
    typed: VaultSecret,
    sent: Bootstrap,
    after: Bootstrap,
    attempt: u8,
)
    requires
        before.inv(),
        before.stage == (BootstrapStage::Password { attempt }),
        call_ensures(Bootstrap::password_entered, (before, Ok(typed)), sent),
        call_ensures(
            Bootstrap::control_answered,
            (sent, Ok(UnlockOutcome::Denied)),
            after,
        ),
    ensures
        sent.stage matches BootstrapStage::ControlUnlock { attempt: at, password } && at == attempt
            && password == typed,
        1 <= attempt <= 3,
        attempt < 3 ==> after.stage == (BootstrapStage::Password { attempt: (attempt + 1) as u8 }),
        attempt == 3 ==> after.stage is Failed,
        after.notice is Some,
{
}

/// A new keyring is made with the password that was typed twice: what is sent to the
/// daemon is the first one, and only where the second is the same and neither is empty.
pub proof fn new_keyring_has_the_confirmed_password(
    before: Bootstrap,
    first: VaultSecret,
    between: Bootstrap,
    second: VaultSecret,
    confirmed: Bootstrap,
    after: Bootstrap,
)
    requires
        before.inv(),
        before.stage is NewPassword,
        call_ensures(Bootstrap::new_password_entered, (before, Ok(first)), between),
        call_ensures(Bootstrap::new_password_confirmed, (between, Ok(second)), confirmed),
        call_ensures(Bootstrap::dir_created, (confirmed, Ok(())), after),
        first@.len() > 0 && first@ == second@,
    ensures
        after.stage == BootstrapStage::ControlCreate(first),
        after.status == before.status && after.gui == before.gui,
{
}

/// A new password that is empty, or is not repeated, is asked for again.
pub proof fn bad_new_password_is_asked_again(
    before: Bootstrap,
    first: VaultSecret,
    between: Bootstrap,
    second: VaultSecret,
    after: Bootstrap,
)
    requires
        before.inv(),
        before.stage is NewPassword,
        call_ensures(Bootstrap::new_password_entered, (before, Ok(first)), between),
    ensures
        first@.len() == 0 ==> between.stage is NewPassword && between.notice is Some,
        first@.len() > 0 ==> between.stage == BootstrapStage::ConfirmPassword(first),
        first@.len() > 0 && first@ != second@ && call_ensures(
            Bootstrap::new_password_confirmed,
            (between, Ok(second)),
            after,
        ) ==> after.stage is NewPassword && after.notice is Some,
{
}

/// An unlock counts only where the collection is then seen as ready; a socket that
/// cannot be used, or does not help, leads to the GUI prompt.
pub proof fn unlock_counts_where_it_is_seen(
    before: Bootstrap,
    answer: Result<UnlockOutcome, Unavailable>,
    between: Bootstrap,
    status: Result<DefaultCollectionStatus, Error>,
    after: Bootstrap,
)
    requires
        before.inv(),
        before.stage is ControlCreate || before.stage is ControlUnlock,
        call_ensures(Bootstrap::control_answered, (before, answer), between),
    ensures
        answer is Err ==> between.stage is GuiConnect,
        answer == Ok::<UnlockOutcome, Unavailable>(UnlockOutcome::Unlocked) && call_ensures(
            Bootstrap::reprobed,
            (between, status),
            after,
        ) ==> if status == Ok::<DefaultCollectionStatus, Error>(DefaultCollectionStatus::Ready) {
            after.stage is Ready
        } else {
            after.stage is GuiConnect
        },
{
}

/// The GUI prompt unlocks what exists and creates what is absent, the latter only where one
/// can be rendered; it ends ready where it was answered, and failed otherwise.
pub proof fn gui_prompt_makes_it_ready(
    before: Bootstrap,
    connected: Bootstrap,
    made: Bootstrap,
    outcome: Result<(), (GuiStep, String)>,
    after: Bootstrap,
)
    requires
        before.inv(),
        before.stage is GuiConnect,
        call_ensures(Bootstrap::connected, (before, Ok(())), connected),
        connected.stage is GuiCreateDir ==> call_ensures(
            Bootstrap::dir_created,
            (connected, Ok(())),
            made,
        ),
        connected.stage is GuiUnlock ==> made == connected,
        call_ensures(Bootstrap::prompted, (made, outcome), after),
    ensures
        before.status == DefaultCollectionStatus::ExistsLocked <==> connected.stage is GuiUnlock,
        before.status == DefaultCollectionStatus::Absent && before.gui
            <==> connected.stage is GuiCreateDir,
        before.status == DefaultCollectionStatus::Absent && !before.gui
            <==> connected.stage is Failed,
        connected.stage is GuiCreateDir ==> made.stage is GuiCreate,
        outcome is Ok ==> after.stage is Ready,
        outcome matches Err((_, cause)) ==> (after.stage matches BootstrapStage::Failed(
            Error::Vault(VaultError::KeyringUnavailable { message, source }),
        ) && source@ == cause@ && text::ends(message@, cause@)),
{
    if let Err((step, cause)) = outcome {
        assert(after.stage->Failed_0->Vault_0->KeyringUnavailable_message@ == (gui_step_text(step)
            + ": "@) + cause@);
        text::ends_split_the_text(
            after.stage->Failed_0->Vault_0->KeyringUnavailable_message@,
            cause@,
        );
    }
}

/// A probe that was answered tells the state of the collection; one that was not is an
/// error that tells the cause.
pub proof fn probe_tells_the_state(
    probe: CollectionProbe,
    r: Result<DefaultCollectionStatus, Error>,
)
    requires
        call_ensures(default_collection_status, (probe,), r),
    ensures
        r == Ok::<DefaultCollectionStatus, Error>(DefaultCollectionStatus::Ready) <==> probe == (
        CollectionProbe::Found { locked: false }),
        r == Ok::<DefaultCollectionStatus, Error>(DefaultCollectionStatus::ExistsLocked) <==> probe
            == (CollectionProbe::Found { locked: true }),
        r == Ok::<DefaultCollectionStatus, Error>(DefaultCollectionStatus::Absent) <==> probe
            == CollectionProbe::NoCollection,
        r matches Err(e) ==> (e matches Error::Vault(
            VaultError::KeyringUnavailable { message, source },
        ) && text::ends(message@, source@) && match probe {
            CollectionProbe::Unreachable(cause) | CollectionProbe::Unreadable(cause)
            | CollectionProbe::LockUnknown(cause) => source@ == cause@,
            _ => false,
        }),
{
    if let Err(Error::Vault(VaultError::KeyringUnavailable { message, source })) = r {
        match probe {
            CollectionProbe::Unreachable(cause) => {
                assert(message@ == ("secret service unreachable"@ + ": "@) + cause@);
            },
            CollectionProbe::Unreadable(cause) => {
                assert(message@ == ("could not read default collection"@ + ": "@) + cause@);
            },
            CollectionProbe::LockUnknown(cause) => {
                assert(message@ == ("collection probe failed"@ + ": "@) + cause@);
            },
            _ => {},
        }
        text::ends_split_the_text(message@, source@);
    }
}

/// A caller that cannot be prompted is never prompted: the route either needs
/// nothing or refuses. And a collection that is ready needs nothing, whoever
/// calls.
pub proof fn no_prompt_without_a_terminal(status: DefaultCollectionStatus, control: bool)
    ensures
        route(status, false, control) == BootstrapRoute::AlreadyReady || route(
            status,
            false,
            control,
        ) == BootstrapRoute::RefuseNonInteractive,
        route(DefaultCollectionStatus::Ready, true, control) == BootstrapRoute::AlreadyReady,
{
}

} // verus!
