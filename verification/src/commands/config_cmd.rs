//! `avpm config init/path/edit`.
//!
//! `init` is a dialogue: a [`ConfigInit`] says what to ask, and takes each
//! answered line, until there is a config file to write.

use vstd::prelude::*;

use crate::error::Error;
use crate::password;
use crate::text;

verus! {

/// What the dialogue has come to.
pub enum InitStage {
    /// Ask for the service name.
    Service,
    /// Ask whether to configure sync.
    Sync { service: String },
    /// Ask for the sync backend.
    Backend { service: String },
    /// Ask for the git remote.
    Remote { service: String },
    /// Ask for the WebDAV URL.
    Url { service: String },
    /// Ask for the WebDAV user name.
    Username { service: String, url: String },
    /// Write this text; `note` is what to tell the user beside it.
    Write { toml: String, note: Option<&'static str> },
    /// The dialogue ended without a config file.
    Failed(Error),
}

/// The dialogue of `avpm config init`.
pub struct ConfigInit {
    pub stage: InitStage,
}

/// What is told where WebDAV was configured.
pub const WEBDAV_NOTE: &'static str =
    "note: webdav password will be prompted on first sync and stored in keyring (avpm-webdav)";

/// The text of a config file that `edit` starts from where there is none.
pub const EDIT_TEMPLATE: &'static str = "# avpm config\n[default]\nservice = \"avpm\"\n";

/// The `[default]` section.
pub open spec fn default_section(service: Seq<char>) -> Seq<char> {
    "[default]\nservice = \""@ + service + "\"\n"@
}

/// The sections of a git sync.
pub open spec fn git_sections(remote: Seq<char>) -> Seq<char> {
    "\n[sync]\nbackend = \"git\"\n[sync.git]\nremote = \""@ + remote + "\"\n"@
}

/// The sections of a WebDAV sync.
pub open spec fn webdav_sections(url: Seq<char>, username: Seq<char>) -> Seq<char> {
    "\n[sync]\nbackend = \"webdav\"\n[sync.webdav]\nurl = \""@ + url + "\"\nusername = \""@
        + username + "\"\n"@
}

/// A line without the white space around it, or the default where nothing is
/// left.
pub open spec fn answer_or(line: Seq<char>, default: Seq<char>) -> Seq<char> {
    if text::trimmed(line).len() == 0 {
        default
    } else {
        text::trimmed(line)
    }
}

/// A line without the white space around it, or the default where nothing is
/// left.
pub fn line_or_default(line: &str, default: &str) -> (r: String)
    ensures
        r@ == answer_or(line@, default@),
{
    let trimmed = text::trim(line);
    if trimmed.as_str().is_empty() {
        default.to_owned()
    } else {
        trimmed
    }
}

/// A line without the white space around it; an error where nothing is left.
pub fn line_required(line: &str, name: &str) -> (r: Result<String, Error>)
    ensures
        match r {
            Ok(value) => value@ == text::trimmed(line@) && value@.len() > 0,
            Err(e) => text::trimmed(line@).len() == 0 && is_required(e, name@),
        },
{
    let value = line_or_default(line, "");
    proof {
        reveal_strlit("");
    }
    if value.as_str().is_empty() {
        Err(Error::Other(text::join2(name, " is required")))
    } else {
        Ok(value)
    }
}

/// The error of a missing answer.
pub open spec fn is_required(e: Error, name: Seq<char>) -> bool {
    e matches Error::Other(message) && message@ == name + " is required"@
}

impl ConfigInit {
    /// The beginning of the dialogue.
    #[must_use]
    pub fn new() -> (r: Self)
        ensures
            r.stage is Service,
    {
        ConfigInit { stage: InitStage::Service }
    }

    /// What to ask; `None` where the dialogue has ended.
    #[must_use]
    pub fn question(&self) -> (r: Option<&'static str>)
        ensures
            match self.stage {
                InitStage::Service => r matches Some(q) && q@ == "service name [avpm]: "@,
                InitStage::Sync { .. } => r matches Some(q) && q@
                    == "Configure sync now? [y/N]: "@,
                InitStage::Backend { .. } => r matches Some(q) && q@
                    == "backend (git/webdav) [git]: "@,
                InitStage::Remote { .. } => r matches Some(q) && q@ == "git remote URL: "@,
                InitStage::Url { .. } => r matches Some(q) && q@ == "webdav URL: "@,
                InitStage::Username { .. } => r matches Some(q) && q@ == "webdav username: "@,
                _ => r is None,
            },
    {
        match &self.stage {
            InitStage::Service => Some("service name [avpm]: "),
            InitStage::Sync { .. } => Some("Configure sync now? [y/N]: "),
            InitStage::Backend { .. } => Some("backend (git/webdav) [git]: "),
            InitStage::Remote { .. } => Some("git remote URL: "),
            InitStage::Url { .. } => Some("webdav URL: "),
            InitStage::Username { .. } => Some("webdav username: "),
            _ => None,
        }
    }

    /// What an answered line leads to.
    pub open spec fn answered(&self, line: Seq<char>, next: InitStage) -> bool {
        match self.stage {
            InitStage::Service => next matches InitStage::Sync { service } && service@ == answer_or(
                line,
                "avpm"@,
            ),
            InitStage::Sync { service } => if password::says_yes(line) {
                next matches InitStage::Backend { service: kept } && kept == service
            } else {
                next matches InitStage::Write { toml, note } && toml@ == default_section(service@)
                    && note is None
            },
            InitStage::Backend { service } => {
                let backend = answer_or(line, "git"@);
                if backend == "git"@ {
                    next matches InitStage::Remote { service: kept } && kept == service
                } else if backend == "webdav"@ {
                    next matches InitStage::Url { service: kept } && kept == service
                } else {
                    next matches InitStage::Failed(Error::Other(message)) && message@
                        == "unknown backend '"@ + backend + "' (expected git|webdav)"@
                }
            },
            InitStage::Remote { service } => if text::trimmed(line).len() == 0 {
                next matches InitStage::Failed(e) && is_required(e, "remote"@)
            } else {
                next matches InitStage::Write { toml, note } && toml@ == default_section(service@)
                    + git_sections(text::trimmed(line)) && note is None
            },
            InitStage::Url { service } => if text::trimmed(line).len() == 0 {
                next matches InitStage::Failed(e) && is_required(e, "url"@)
            } else {
                next matches InitStage::Username { service: kept, url } && kept == service && url@
                    == text::trimmed(line)
            },
            InitStage::Username { service, url } => if text::trimmed(line).len() == 0 {
                next matches InitStage::Failed(e) && is_required(e, "username"@)
            } else {
                next matches InitStage::Write { toml, note } && toml@ == default_section(service@)
                    + webdav_sections(url@, text::trimmed(line)) && (note matches Some(told)
                    && told@ == WEBDAV_NOTE@)
            },
            ended => next == ended,
        }
    }

    /// Take an answered line.
    pub fn answer(self, line: &str) -> (next: Self)
        ensures
            self.answered(line@, next.stage),
    {
        let stage = match self.stage {
            InitStage::Service => InitStage::Sync { service: line_or_default(line, "avpm") },
            InitStage::Sync { service } => {
                if password::is_yes(line) {
                    InitStage::Backend { service }
                } else {
                    InitStage::Write { toml: render_default(service.as_str()), note: None }
                }
            },
            InitStage::Backend { service } => {
                let backend = line_or_default(line, "git");
                if text::same(backend.as_str(), "git") {
                    InitStage::Remote { service }
                } else if text::same(backend.as_str(), "webdav") {
                    InitStage::Url { service }
                } else {
                    InitStage::Failed(
                        Error::Other(
                            text::join3(
                                "unknown backend '",
                                backend.as_str(),
                                "' (expected git|webdav)",
                            ),
                        ),
                    )
                }
            },
            InitStage::Remote { service } => match line_required(line, "remote") {
                Ok(remote) => {
                    let mut toml = render_default(service.as_str());
                    let sections = text::join3(
                        "\n[sync]\nbackend = \"git\"\n[sync.git]\nremote = \"",
                        remote.as_str(),
                        "\"\n",
                    );
                    toml.append(sections.as_str());
                    InitStage::Write { toml, note: None }
                },
                Err(e) => InitStage::Failed(e),
            },
            InitStage::Url { service } => match line_required(line, "url") {
                Ok(url) => InitStage::Username { service, url },
                Err(e) => InitStage::Failed(e),
            },
            InitStage::Username { service, url } => match line_required(line, "username") {
                Ok(username) => {
                    let mut toml = render_default(service.as_str());
                    let sections = text::join5(
                        "\n[sync]\nbackend = \"webdav\"\n[sync.webdav]\nurl = \"",
                        url.as_str(),
                        "\"\nusername = \"",
                        username.as_str(),
                        "\"\n",
                    );
                    toml.append(sections.as_str());
                    InitStage::Write { toml, note: Some(WEBDAV_NOTE) }
                },
                Err(e) => InitStage::Failed(e),
            },
            ended => ended,
        };
        ConfigInit { stage }
    }
}

/// An answer is what was typed, without the white space around it; the default stands
/// where nothing was typed.
pub proof fn typed_answer_or_default(
    before: Seq<char>,
    word: Seq<char>,
    after: Seq<char>,
    default: Seq<char>,
)
    requires
        forall|i: int| 0 <= i < before.len() ==> text::is_space(#[trigger] before[i]),
        forall|i: int| 0 <= i < after.len() ==> text::is_space(#[trigger] after[i]),
        word.len() > 0 ==> !text::is_space(word[0]) && !text::is_space(word.last()),
    ensures
        answer_or(before + word + after, default) == if word.len() == 0 {
            default
        } else {
            word
        },
{
    text::trimming_ignores_the_margins(before, word, after);
}

/// A dialogue without sync writes the service name alone: the one that was typed, or the
/// program's own.
pub proof fn dialogue_without_sync(
    begun: ConfigInit,
    service: &str,
    named: ConfigInit,
    no: &str,
    ended: ConfigInit,
)
    requires
        call_ensures(ConfigInit::new, (), begun),
        call_ensures(ConfigInit::answer, (begun, service), named),
        call_ensures(ConfigInit::answer, (named, no), ended),
        !password::says_yes(no@),
    ensures
        ({
            let name = if text::trimmed(service@).len() == 0 {
                "avpm"@
            } else {
                text::trimmed(service@)
            };
            ended.stage matches InitStage::Write { toml, note } && note is None && toml@
                == "[default]\nservice = \""@ + name + "\"\n"@
        }),
{
}

/// A dialogue with git sync writes the service name and the remote that were typed.
pub proof fn dialogue_with_git(
    begun: ConfigInit,
    service: &str,
    named: ConfigInit,
    yes: &str,
    asked: ConfigInit,
    backend: &str,
    chosen: ConfigInit,
    remote: &str,
    ended: ConfigInit,
)
    requires
        call_ensures(ConfigInit::new, (), begun),
        call_ensures(ConfigInit::answer, (begun, service), named),
        call_ensures(ConfigInit::answer, (named, yes), asked),
        password::says_yes(yes@),
        call_ensures(ConfigInit::answer, (asked, backend), chosen),
        text::trimmed(backend@).len() == 0 || text::trimmed(backend@) == "git"@,
        call_ensures(ConfigInit::answer, (chosen, remote), ended),
    ensures
        ended.stage is Write <==> text::trimmed(remote@).len() > 0,
        ended.stage matches InitStage::Write { toml, note } ==> {
            &&& note is None
            &&& text::trimmed(service@).len() > 0 ==> text::starts(
                toml@,
                "[default]\nservice = \""@ + text::trimmed(service@) + "\"\n"@,
            )
            &&& text::ends(
                toml@,
                "backend = \"git\"\n[sync.git]\nremote = \""@ + text::trimmed(remote@) + "\"\n"@,
            )
        },
{
    reveal_strlit("git");
    if let InitStage::Write { toml, note } = ended.stage {
        let name = answer_or(service@, "avpm"@);
        let typed = text::trimmed(remote@);
        let head = "[default]\nservice = \""@ + name + "\"\n"@;
        let tail = "backend = \"git\"\n[sync.git]\nremote = \""@ + typed + "\"\n"@;
        reveal_strlit("\n[sync]\nbackend = \"git\"\n[sync.git]\nremote = \"");
        reveal_strlit("backend = \"git\"\n[sync.git]\nremote = \"");
        reveal_strlit("\n[sync]\n");
        assert("\n[sync]\nbackend = \"git\"\n[sync.git]\nremote = \""@ =~= "\n[sync]\n"@
            + "backend = \"git\"\n[sync.git]\nremote = \""@);
        assert(toml@ =~= (head + "\n[sync]\n"@) + tail);
        text::ends_split_the_text(toml@, tail);
        assert(toml@ =~= head + ("\n[sync]\n"@ + tail));
        text::ends_split_the_text(toml@, head);
    }
}

/// A dialogue with WebDAV sync writes the service name, the URL and the user name that
/// were typed, and says that the password is asked for later.
pub proof fn dialogue_with_webdav(
    begun: ConfigInit,
    service: &str,
    named: ConfigInit,
    yes: &str,
    asked: ConfigInit,
    backend: &str,
    chosen: ConfigInit,
    url: &str,
    located: ConfigInit,
    username: &str,
    ended: ConfigInit,
)
    requires
        call_ensures(ConfigInit::new, (), begun),
        call_ensures(ConfigInit::answer, (begun, service), named),
        call_ensures(ConfigInit::answer, (named, yes), asked),
        password::says_yes(yes@),
        call_ensures(ConfigInit::answer, (asked, backend), chosen),
        text::trimmed(backend@) == "webdav"@,
        call_ensures(ConfigInit::answer, (chosen, url), located),
        text::trimmed(url@).len() > 0,
        call_ensures(ConfigInit::answer, (located, username), ended),
    ensures
        ended.stage is Write <==> text::trimmed(username@).len() > 0,
        ended.stage matches InitStage::Write { toml, note } ==> {
            &&& note is Some
            &&& text::trimmed(service@).len() > 0 ==> text::starts(
                toml@,
                "[default]\nservice = \""@ + text::trimmed(service@) + "\"\n"@,
            )
            &&& text::ends(
                toml@,
                "url = \""@ + text::trimmed(url@) + "\"\nusername = \""@ + text::trimmed(
                    username@,
                ) + "\"\n"@,
            )
            &&& text::occurs_in(toml@, "backend = \"webdav\"\n[sync.webdav]\n"@)
        },
{
    reveal_strlit("git");
    reveal_strlit("webdav");
    if let InitStage::Write { toml, note } = ended.stage {
        let name = answer_or(service@, "avpm"@);
        let u = text::trimmed(url@);
        let n = text::trimmed(username@);
        let head = "[default]\nservice = \""@ + name + "\"\n"@;
        let tail = "url = \""@ + u + "\"\nusername = \""@ + n + "\"\n"@;
        let mid = "backend = \"webdav\"\n[sync.webdav]\n"@;
        reveal_strlit("\n[sync]\nbackend = \"webdav\"\n[sync.webdav]\nurl = \"");
        reveal_strlit("backend = \"webdav\"\n[sync.webdav]\n");
        reveal_strlit("url = \"");
        reveal_strlit("\n[sync]\n");
        assert("\n[sync]\nbackend = \"webdav\"\n[sync.webdav]\nurl = \""@ =~= "\n[sync]\n"@ + mid
            + "url = \""@);
        assert(toml@ =~= (head + "\n[sync]\n"@ + mid) + tail);
        text::ends_split_the_text(toml@, tail);
        assert(toml@ =~= (head + "\n[sync]\n"@) + mid + tail);
        text::part_occurs(head + "\n[sync]\n"@, mid, tail);
        assert(toml@ =~= head + ("\n[sync]\n"@ + mid + tail));
        text::ends_split_the_text(toml@, head);
    }
}

fn render_default(service: &str) -> (r: String)
    ensures
        r@ == default_section(service@),
{
    text::join3("[default]\nservice = \"", service, "\"\n")
}

/// The question to ask where the config file exists.
pub fn overwrite_question(path: &str) -> (r: String)
    ensures
        r@ == path@ + " exists. Overwrite?"@,
{
    text::join2(path, " exists. Overwrite?")
}

/// What is told once the config file is written.
pub fn written(path: &str) -> (r: String)
    ensures
        r@ == "wrote "@ + path@,
{
    text::join2("wrote ", path)
}

} // verus!
