//! `avpm sync push/pull/status`.

use vstd::prelude::*;

use crate::config::{BackendKind, Config, GitConfig, WebDavConfig};
use crate::error::Error;
use crate::sync::engine::{PullSummary, PushSummary, StatusSummary};
use crate::sync::error::SyncError;
use crate::sync::manifest::VaultEntry;
use crate::sync::merge::ConflictResolution;
use crate::text;

verus! {

/// The `Display` text of a `jiff::Timestamp`.
pub uninterp spec fn instant_text(t: jiff::Timestamp) -> Seq<char>;

/// `Display` of `jiff::Timestamp`: a text that depends on nothing but the
/// instant.
#[verifier::external_body]
fn timestamp_text(t: &jiff::Timestamp) -> (r: String)
    ensures
        r@ == instant_text(*t),
{
    t.to_string()
}

// ---------------------------------------------------------------------------
// Target
// ---------------------------------------------------------------------------
/// The transport that a configuration names.
pub enum SyncTarget<'a> {
    Git(&'a GitConfig),
    WebDav(&'a WebDavConfig),
}

/// The transport that a configuration names, with its section.
pub fn target(cfg: &Config) -> (r: Result<SyncTarget<'_>, Error>)
    ensures
        match cfg.sync {
            None => r matches Err(Error::Sync(SyncError::NotConfigured)),
            Some(sync) => match (sync.backend, sync.git, sync.webdav) {
                (BackendKind::Git, Some(git), _) => r matches Ok(SyncTarget::Git(found)) && *found
                    == git,
                (BackendKind::Git, None, _) => r matches Err(
                    Error::Sync(SyncError::Manifest(message)),
                ) && message@ == "git backend configured but [sync.git] missing"@,
                (BackendKind::WebDav, _, Some(webdav)) => r matches Ok(SyncTarget::WebDav(found))
                    && *found == webdav,
                (BackendKind::WebDav, _, None) => r matches Err(
                    Error::Sync(SyncError::Manifest(message)),
                ) && message@ == "webdav backend configured but [sync.webdav] missing"@,
            },
        },
{
    let sync = match cfg.sync_config() {
        Some(sync) => sync,
        None => {
            return Err(Error::Sync(SyncError::NotConfigured));
        },
    };
    match sync.backend {
        BackendKind::Git => match &sync.git {
            Some(git) => Ok(SyncTarget::Git(git)),
            None => Err(
                Error::Sync(
                    SyncError::Manifest("git backend configured but [sync.git] missing".to_owned()),
                ),
            ),
        },
        BackendKind::WebDav => match &sync.webdav {
            Some(webdav) => Ok(SyncTarget::WebDav(webdav)),
            None => Err(
                Error::Sync(
                    SyncError::Manifest(
                        "webdav backend configured but [sync.webdav] missing".to_owned(),
                    ),
                ),
            ),
        },
    }
}

/// The transport is the one that the configuration names, with its own section: another
/// section is never taken for it.
pub proof fn transport_is_the_named_one(cfg: &Config, r: Result<SyncTarget<'_>, Error>)
    requires
        call_ensures(target, (cfg,), r),
    ensures
        r matches Ok(SyncTarget::Git(git)) ==> (cfg.sync matches Some(sync) && sync.backend
            == BackendKind::Git && sync.git == Some(*git)),
        r matches Ok(SyncTarget::WebDav(webdav)) ==> (cfg.sync matches Some(sync) && sync.backend
            == BackendKind::WebDav && sync.webdav == Some(*webdav)),
        cfg.sync is None <==> (r matches Err(Error::Sync(SyncError::NotConfigured))),
        cfg.sync matches Some(sync) ==> (r is Ok <==> match sync.backend {
            BackendKind::Git => sync.git is Some,
            BackendKind::WebDav => sync.webdav is Some,
        }),
{
}

// ---------------------------------------------------------------------------
// Conflicts
// ---------------------------------------------------------------------------
/// Last few characters of a password, shown as a fingerprint so the user can tell
/// conflicting values apart without dumping full plaintext. Of a short one
/// nothing is shown but its length.
pub open spec fn fingerprint_of(s: Seq<char>) -> Seq<char> {
    if s.len() <= 4 {
        text::repeated('•', s.len())
    } else {
        "…"@ + s.skip(s.len() - 4)
    }
}

/// The fingerprint of a password.
pub fn fingerprint(s: &str) -> (r: String)
    ensures
        r@ == fingerprint_of(s@),
{
    let chars = text::chars_of(s);
    let n: usize = chars.len();
    if n <= 4 {
        return text::repeat('•', n);
    }
    let mut out = "…".to_owned();
    for i in n - 4..n
        invariant
            4 < n == chars@.len(),
            chars@ == s@,
            out@ == "…"@ + s@.subrange(n - 4, i as int),
    {
        out.push(chars[i]);
        assert(out@ =~= "…"@ + s@.subrange(n - 4, i + 1));
    }
    assert(s@.subrange(n - 4, n as int) =~= s@.skip(n - 4));
    out
}

/// Passwords that end in the same four characters have the same fingerprint:
/// nothing else of a long password is shown.
pub proof fn fingerprint_shows_at_most_four(a: Seq<char>, b: Seq<char>)
    requires
        a.len() > 4,
        b.len() > 4,
        a.skip(a.len() - 4) == b.skip(b.len() - 4),
    ensures
        fingerprint_of(a) == fingerprint_of(b),
{
}

/// A fingerprint of a long password is five characters long and ends as the password
/// does; that of a short one is as long as the password, and all dots.
pub proof fn fingerprint_is_the_tail(s: &str, r: String)
    requires
        call_ensures(fingerprint, (s,), r),
    ensures
        s@.len() > 4 ==> {
            &&& r@.len() == 5 && r@[0] == '…'
            &&& forall|i: int| 1 <= i < 5 ==> #[trigger] r@[i] == s@[s@.len() - 5 + i]
        },
        s@.len() <= 4 ==> r@.len() == s@.len() && forall|i: int|
            0 <= i < r@.len() ==> #[trigger] r@[i] == '•',
{
    reveal_strlit("…");
}

/// One side of a conflict: when the entry was written, how long its password is
/// (in bytes), and its fingerprint; or why there is none.
pub open spec fn side_text(
    label: Seq<char>,
    entry: Option<&VaultEntry>,
    when: Seq<char>,
    absent: Seq<char>,
) -> Seq<char> {
    match entry {
        Some(e) => label + "updated "@ + when + ", "@ + text::decimal(
            vstd::utf8::encode_utf8(e.password@).len() as usize as nat,
        ) + " chars ("@ + fingerprint_of(e.password@) + ")"@,
        None => label + absent,
    }
}

/// One side of a conflict, at a time written `when`.
fn side_line(label: &str, entry: Option<&VaultEntry>, when: &str, absent: &str) -> (r: String)
    ensures
        r@ == side_text(label@, entry, when@, absent@),
{
    match entry {
        Some(e) => {
            let n = text::decimal_text(e.password.as_str().len() as u64);
            let shown = fingerprint(e.password.as_str());
            let mut line = text::join5(label, "updated ", when, ", ", n.as_str());
            line.append(" chars (");
            line.append(shown.as_str());
            line.append(")");
            line
        },
        None => text::join2(label, absent),
    }
}

/// When an entry was updated, as text; empty for an absent one.
pub open spec fn entry_when(entry: Option<&VaultEntry>) -> Seq<char> {
    match entry {
        Some(e) => instant_text(e.updated_at),
        None => Seq::empty(),
    }
}

/// How the time of an entry is written.
fn when_text(entry: Option<&VaultEntry>) -> (r: String)
    ensures
        r@ == entry_when(entry),
{
    match entry {
        Some(e) => timestamp_text(&e.updated_at),
        None => String::new(),
    }
}

/// The whole context of a conflict: base, local and remote, and the choices.
pub open spec fn conflict_text(
    vault_id: Seq<char>,
    base: Option<&VaultEntry>,
    local: Option<&VaultEntry>,
    remote: Option<&VaultEntry>,
    when: (Seq<char>, Seq<char>, Seq<char>),
) -> Seq<Seq<char>> {
    seq![
        "⚠ Conflict on '"@ + vault_id + "':"@,
        side_text(
            "  base   : "@,
            base,
            when.0,
            "(absent — new on both sides since last sync)"@,
        ),
        side_text("  local  : "@, local, when.1, "(deleted on this device)"@),
        side_text("  remote : "@, remote, when.2, "(deleted on remote)"@),
        if local is Some && remote is Some {
            "[1] keep local  [2] keep remote  [3] keep both (remote as '"@ + vault_id
                + ".remote')"@
        } else {
            "[1] keep local  [2] keep remote"@
        },
    ]
}

/// The context of a conflict, with the times of the three entries as they are
/// written.
pub fn conflict_lines_at(
    vault_id: &str,
    base: Option<&VaultEntry>,
    local: Option<&VaultEntry>,
    remote: Option<&VaultEntry>,
    base_when: &str,
    local_when: &str,
    remote_when: &str,
) -> (r: Vec<String>)
    ensures
        text::views(r@) == conflict_text(
            vault_id@,
            base,
            local,
            remote,
            (base_when@, local_when@, remote_when@),
        ),
{
    let mut lines: Vec<String> = Vec::new();
    lines.push(text::join3("⚠ Conflict on '", vault_id, "':"));
    lines.push(
        side_line(
            "  base   : ",
            base,
            base_when,
            "(absent — new on both sides since last sync)",
        ),
    );
    lines.push(side_line("  local  : ", local, local_when, "(deleted on this device)"));
    lines.push(side_line("  remote : ", remote, remote_when, "(deleted on remote)"));
    lines.push(
        if local.is_some() && remote.is_some() {
            text::join3(
                "[1] keep local  [2] keep remote  [3] keep both (remote as '",
                vault_id,
                ".remote')",
            )
        } else {
            "[1] keep local  [2] keep remote".to_owned()
        },
    );
    assert(text::views(lines@) =~= conflict_text(
        vault_id@,
        base,
        local,
        remote,
        (base_when@, local_when@, remote_when@),
    ));
    lines
}

/// The context of a conflict, so the user can make an informed choice.
pub fn conflict_lines(
    vault_id: &str,
    base: Option<&VaultEntry>,
    local: Option<&VaultEntry>,
    remote: Option<&VaultEntry>,
) -> (r: Vec<String>)
    ensures
        text::views(r@) == conflict_text(
            vault_id@,
            base,
            local,
            remote,
            (entry_when(base), entry_when(local), entry_when(remote)),
        ),
{
    let base_when = when_text(base);
    let local_when = when_text(local);
    let remote_when = when_text(remote);
    conflict_lines_at(
        vault_id,
        base,
        local,
        remote,
        base_when.as_str(),
        local_when.as_str(),
        remote_when.as_str(),
    )
}

/// The context of a conflict names the vault-id, tells of each side that has a value when
/// it was written, how long it is and its fingerprint, and offers to keep both only where
/// both sides have one.
pub proof fn conflict_lines_tell_the_sides(
    vault_id: &str,
    base: Option<&VaultEntry>,
    local: Option<&VaultEntry>,
    remote: Option<&VaultEntry>,
    r: Vec<String>,
)
    requires
        call_ensures(conflict_lines, (vault_id, base, local, remote), r),
    ensures
        r@.len() == 5,
        text::occurs_in(r@[0]@, vault_id@),
        base matches Some(e) ==> tells_entry(r@[1]@, *e),
        local matches Some(e) ==> tells_entry(r@[2]@, *e),
        remote matches Some(e) ==> tells_entry(r@[3]@, *e),
        text::starts(r@[1]@, "  base   : "@),
        text::starts(r@[2]@, "  local  : "@),
        text::starts(r@[3]@, "  remote : "@),
        text::ends(r@[4]@, ".remote')"@) <==> local is Some && remote is Some,
{
    let lines = text::views(r@);
    assert(lines.len() == r@.len());
    assert(lines[0] == r@[0]@ && lines[1] == r@[1]@ && lines[2] == r@[2]@ && lines[3] == r@[3]@
        && lines[4] == r@[4]@);
    text::part_occurs("⚠ Conflict on '"@, vault_id@, "':"@);
    lemma_side_told("  base   : "@, base, "(absent — new on both sides since last sync)"@);
    lemma_side_told("  local  : "@, local, "(deleted on this device)"@);
    lemma_side_told("  remote : "@, remote, "(deleted on remote)"@);
    let both = "[1] keep local  [2] keep remote  [3] keep both (remote as '"@ + vault_id@
        + ".remote')"@;
    text::ends_split_the_text(both, ".remote')"@);
    let two = "[1] keep local  [2] keep remote"@;
    reveal_strlit("[1] keep local  [2] keep remote");
    reveal_strlit(".remote')");
    if text::ends(two, ".remote')"@) {
        assert(two.subrange(two.len() - 9, two.len() as int)[8] == ".remote')"@[8]);
    }
}

/// A line tells when an entry was written, how many bytes its password has, and its
/// fingerprint.
pub open spec fn tells_entry(line: Seq<char>, e: VaultEntry) -> bool {
    &&& text::occurs_in(line, instant_text(e.updated_at))
    &&& text::occurs_in(
        line,
        text::decimal(vstd::utf8::encode_utf8(e.password@).len() as usize as nat),
    )
    &&& text::occurs_in(line, fingerprint_of(e.password@))
}

proof fn lemma_side_told(label: Seq<char>, entry: Option<&VaultEntry>, absent: Seq<char>)
    ensures
        text::starts(side_text(label, entry, entry_when(entry), absent), label),
        entry matches Some(e) ==> tells_entry(
            side_text(label, entry, entry_when(entry), absent),
            *e,
        ),
{
    let line = side_text(label, entry, entry_when(entry), absent);
    assert(line.subrange(0, label.len() as int) =~= label);
    if let Some(e) = entry {
        let when = instant_text(e.updated_at);
        let n = text::decimal(vstd::utf8::encode_utf8(e.password@).len() as usize as nat);
        let shown = fingerprint_of(e.password@);
        let head = label + "updated "@;
        let tail = ", "@ + n + " chars ("@ + shown + ")"@;
        assert(line =~= head + when + tail);
        text::part_occurs(head, when, tail);
        let head = label + "updated "@ + when + ", "@;
        let tail = " chars ("@ + shown + ")"@;
        assert(line =~= head + n + tail);
        text::part_occurs(head, n, tail);
        let head = label + "updated "@ + when + ", "@ + n + " chars ("@;
        assert(line =~= head + shown + ")"@);
        text::part_occurs(head, shown, ")"@);
    }
}

/// The prompt for a choice.
pub fn choice_prompt(both_present: bool) -> (r: &'static str)
    ensures
        r@ == if both_present {
            "Enter 1/2/3: "@
        } else {
            "Enter 1/2: "@
        },
{
    if both_present {
        "Enter 1/2/3: "
    } else {
        "Enter 1/2: "
    }
}

/// The choice that a line makes. Keeping both is only offered where both sides
/// have a value.
pub open spec fn chosen(line: Seq<char>, both_present: bool) -> Option<ConflictResolution> {
    let choice = text::trimmed(line);
    if choice == "1"@ {
        Some(ConflictResolution::KeepLocal)
    } else if choice == "2"@ {
        Some(ConflictResolution::KeepRemote)
    } else if choice == "3"@ && both_present {
        Some(ConflictResolution::KeepBoth)
    } else {
        None
    }
}

/// One digit makes the choice, whatever white space is around it: one keeps local, two
/// keeps remote, three keeps both where both sides have a value. Nothing else makes one.
pub proof fn one_digit_makes_the_choice(
    before: Seq<char>,
    word: Seq<char>,
    after: Seq<char>,
    both_present: bool,
)
    requires
        forall|i: int| 0 <= i < before.len() ==> text::is_space(#[trigger] before[i]),
        forall|i: int| 0 <= i < after.len() ==> text::is_space(#[trigger] after[i]),
        word.len() > 0 ==> !text::is_space(word[0]) && !text::is_space(word.last()),
    ensures
        ({
            let choice = chosen(before + word + after, both_present);
            &&& choice == Some(ConflictResolution::KeepLocal) <==> word == seq!['1']
            &&& choice == Some(ConflictResolution::KeepRemote) <==> word == seq!['2']
            &&& choice == Some(ConflictResolution::KeepBoth) <==> word == seq!['3'] && both_present
        }),
{
    text::trimming_ignores_the_margins(before, word, after);
    reveal_strlit("1");
    reveal_strlit("2");
    reveal_strlit("3");
    assert("1"@ =~= seq!['1']);
    assert("2"@ =~= seq!['2']);
    assert("3"@ =~= seq!['3']);
    assert(seq!['1'][0] == '1' && seq!['2'][0] == '2' && seq!['3'][0] == '3');
}

/// The choice that a line makes; `None` where it makes none, and is to be asked
/// again.
pub fn conflict_choice(line: &str, both_present: bool) -> (r: Option<ConflictResolution>)
    ensures
        r == chosen(line@, both_present),
{
    let choice = text::trim(line);
    if text::same(choice.as_str(), "1") {
        Some(ConflictResolution::KeepLocal)
    } else if text::same(choice.as_str(), "2") {
        Some(ConflictResolution::KeepRemote)
    } else if text::same(choice.as_str(), "3") && both_present {
        Some(ConflictResolution::KeepBoth)
    } else {
        None
    }
}

// ---------------------------------------------------------------------------
// Reports
// ---------------------------------------------------------------------------
/// The report of a push.
pub fn push_report(s: &PushSummary) -> (r: String)
    ensures
        r@ == "Pushed "@ + text::decimal(s.pushed_count as nat) + " vault(s) ("@ + text::decimal(
            s.ciphertext_size as nat,
        ) + " bytes ciphertext)"@,
{
    let count = text::decimal_text(s.pushed_count as u64);
    let size = text::decimal_text(s.ciphertext_size as u64);
    text::join5("Pushed ", count.as_str(), " vault(s) (", size.as_str(), " bytes ciphertext)")
}

/// Texts in a row, with a comma between them.
pub open spec fn comma_list(items: Seq<Seq<char>>) -> Seq<char>
    decreases items.len(),
{
    if items.len() == 0 {
        Seq::empty()
    } else if items.len() == 1 {
        items[0]
    } else {
        comma_list(items.drop_last()) + ", "@ + items.last()
    }
}

/// A list of one is that one; a longer one is its first, a comma and the rest.
pub proof fn commas_stand_between(first: Seq<char>, rest: Seq<Seq<char>>)
    ensures
        comma_list(Seq::empty()) == Seq::<char>::empty(),
        comma_list(seq![first]) == first,
        rest.len() > 0 ==> comma_list(seq![first] + rest) == first + ", "@ + comma_list(rest),
    decreases rest.len(),
{
    let all = seq![first] + rest;
    if rest.len() == 1 {
        assert(all.drop_last() =~= seq![first]);
        assert(comma_list(seq![first]) == first);
        assert(all.last() == rest[0]);
    } else if rest.len() > 1 {
        commas_stand_between(first, rest.drop_last());
        assert(all.drop_last() =~= seq![first] + rest.drop_last());
        assert(all.last() == rest.last());
        assert(comma_list(all) =~= first + ", "@ + comma_list(rest));
    }
}

fn join_commas(items: &Vec<String>) -> (r: String)
    ensures
        r@ == comma_list(text::views(items@)),
{
    let mut out = String::new();
    let ghost all = text::views(items@);
    assert(all.take(0) =~= Seq::<Seq<char>>::empty());
    for i in 0..items.len()
        invariant
            all == text::views(items@),
            out@ == comma_list(all.take(i as int)),
    {
        proof {
            assert(all.take(i + 1).drop_last() =~= all.take(i as int));
            assert(all.take(i + 1).last() == items@[i as int]@);
            assert(Seq::<char>::empty() + items@[i as int]@ =~= items@[i as int]@);
        }
        if i > 0 {
            out.append(", ");
        }
        out.append(items[i].as_str());
    }
    assert(all.take(all.len() as int) =~= all);
    out
}

/// The report of a push that was aborted: which vault-ids are in conflict, and
/// what to do about it.
pub fn conflict_report(ids: &Vec<String>) -> (r: Vec<String>)
    ensures
        text::views(r@) == seq![
            "Push aborted: "@ + text::decimal(ids@.len()) + " conflict(s): "@ + comma_list(
                text::views(ids@),
            ),
            "Run `avpm sync pull` to resolve interactively, then push again."@,
        ],
{
    let n = text::decimal_text(ids.len() as u64);
    let list = join_commas(ids);
    let mut first = text::join3("Push aborted: ", n.as_str(), " conflict(s): ");
    first.append(list.as_str());
    let mut lines: Vec<String> = Vec::new();
    lines.push(first);
    lines.push("Run `avpm sync pull` to resolve interactively, then push again.".to_owned());
    assert(text::views(lines@) =~= seq![
        "Push aborted: "@ + text::decimal(ids@.len()) + " conflict(s): "@ + comma_list(
            text::views(ids@),
        ),
        "Run `avpm sync pull` to resolve interactively, then push again."@,
    ]);
    lines
}

/// The report of a pull.
pub fn pull_report(s: &PullSummary) -> (r: String)
    ensures
        r@ == "Pull complete: +"@ + text::decimal(s.added@.len()) + " ~"@ + text::decimal(
            s.updated@.len(),
        ) + " -"@ + text::decimal(s.removed@.len()) + " !"@ + text::decimal(s.conflicts@.len())
            + " (kept local: "@ + text::decimal(s.kept_local@.len()) + ", unchanged: "@
            + text::decimal(s.skipped@.len()) + ")"@,
{
    let added = text::decimal_text(s.added.len() as u64);
    let updated = text::decimal_text(s.updated.len() as u64);
    let removed = text::decimal_text(s.removed.len() as u64);
    let conflicts = text::decimal_text(s.conflicts.len() as u64);
    let kept = text::decimal_text(s.kept_local.len() as u64);
    let skipped = text::decimal_text(s.skipped.len() as u64);
    let mut out = text::join5(
        "Pull complete: +",
        added.as_str(),
        " ~",
        updated.as_str(),
        " -",
    );
    out.append(removed.as_str());
    out.append(" !");
    out.append(conflicts.as_str());
    out.append(" (kept local: ");
    out.append(kept.as_str());
    out.append(", unchanged: ");
    out.append(skipped.as_str());
    out.append(")");
    out
}

/// The report of a comparison.
pub open spec fn status_text(s: StatusSummary) -> Seq<Seq<char>> {
    seq![
        "local-only   : "@ + text::decimal(s.local_only@.len()),
        "remote-only  : "@ + text::decimal(s.remote_only@.len()),
        "local-changed: "@ + text::decimal(s.newer_local@.len()),
        "remote-changed: "@ + text::decimal(s.newer_remote@.len()),
        "conflicts    : "@ + text::decimal(s.conflicts@.len()),
        "unchanged    : "@ + text::decimal(s.unchanged@.len()),
    ]
}

fn count_line(label: &str, n: usize) -> (r: String)
    ensures
        r@ == label@ + text::decimal(n as nat),
{
    let numeral = text::decimal_text(n as u64);
    text::join2(label, numeral.as_str())
}

/// The report of a comparison.
pub fn status_report(s: &StatusSummary) -> (r: Vec<String>)
    ensures
        text::views(r@) == status_text(*s),
{
    let mut lines: Vec<String> = Vec::new();
    lines.push(count_line("local-only   : ", s.local_only.len()));
    lines.push(count_line("remote-only  : ", s.remote_only.len()));
    lines.push(count_line("local-changed: ", s.newer_local.len()));
    lines.push(count_line("remote-changed: ", s.newer_remote.len()));
    lines.push(count_line("conflicts    : ", s.conflicts.len()));
    lines.push(count_line("unchanged    : ", s.unchanged.len()));
    assert(text::views(lines@) =~= status_text(*s));
    lines
}

/// The reports tell the numbers: each line of a comparison ends in the length of the list
/// that it is about, in the order local-only, remote-only, changed here, changed there,
/// conflicts, unchanged.
pub proof fn status_report_tells_the_numbers(s: &StatusSummary, r: Vec<String>)
    requires
        call_ensures(status_report, (s,), r),
    ensures
        r@.len() == 6,
        text::ends(r@[0]@, text::decimal(s.local_only@.len())),
        text::ends(r@[1]@, text::decimal(s.remote_only@.len())),
        text::ends(r@[2]@, text::decimal(s.newer_local@.len())),
        text::ends(r@[3]@, text::decimal(s.newer_remote@.len())),
        text::ends(r@[4]@, text::decimal(s.conflicts@.len())),
        text::ends(r@[5]@, text::decimal(s.unchanged@.len())),
        text::starts(r@[0]@, "local-only"@) && text::starts(r@[1]@, "remote-only"@),
        text::starts(r@[2]@, "local-changed"@) && text::starts(r@[3]@, "remote-changed"@),
        text::starts(r@[4]@, "conflicts"@) && text::starts(r@[5]@, "unchanged"@),
{
    let lines = text::views(r@);
    assert(lines.len() == r@.len());
    assert(lines[0] == r@[0]@ && lines[1] == r@[1]@ && lines[2] == r@[2]@ && lines[3] == r@[3]@
        && lines[4] == r@[4]@ && lines[5] == r@[5]@);
    reveal_strlit("local-only   : ");
    reveal_strlit("remote-only  : ");
    reveal_strlit("local-changed: ");
    reveal_strlit("remote-changed: ");
    reveal_strlit("conflicts    : ");
    reveal_strlit("unchanged    : ");
    reveal_strlit("local-only");
    reveal_strlit("remote-only");
    reveal_strlit("local-changed");
    reveal_strlit("remote-changed");
    reveal_strlit("conflicts");
    reveal_strlit("unchanged");
    lemma_counted("local-only   : "@, "local-only"@, s.local_only@.len());
    lemma_counted("remote-only  : "@, "remote-only"@, s.remote_only@.len());
    lemma_counted("local-changed: "@, "local-changed"@, s.newer_local@.len());
    lemma_counted("remote-changed: "@, "remote-changed"@, s.newer_remote@.len());
    lemma_counted("conflicts    : "@, "conflicts"@, s.conflicts@.len());
    lemma_counted("unchanged    : "@, "unchanged"@, s.unchanged@.len());
}

proof fn lemma_counted(label: Seq<char>, name: Seq<char>, n: nat)
    requires
        name.len() <= label.len(),
        label.subrange(0, name.len() as int) =~= name,
    ensures
        text::ends(label + text::decimal(n), text::decimal(n)),
        text::starts(label + text::decimal(n), name),
{
    text::ends_split_the_text(label + text::decimal(n), text::decimal(n));
    assert((label + text::decimal(n)).subrange(0, name.len() as int) =~= label.subrange(
        0,
        name.len() as int,
    ));
}

/// The report of a push tells how many entries and how many bytes went out; that of a pull
/// ends in how many ids were unchanged, and tells the other numbers before.
pub proof fn push_and_pull_reports_tell_the_numbers(
    pushed: &PushSummary,
    told: String,
    pulled: &PullSummary,
    reported: String,
)
    requires
        call_ensures(push_report, (pushed,), told),
        call_ensures(pull_report, (pulled,), reported),
    ensures
        text::starts(told@, "Pushed "@ + text::decimal(pushed.pushed_count as nat) + " "@),
        text::ends(
            told@,
            " ("@ + text::decimal(pushed.ciphertext_size as nat) + " bytes ciphertext)"@,
        ),
        text::occurs_in(reported@, "+"@ + text::decimal(pulled.added@.len()) + " "@),
        text::occurs_in(reported@, "~"@ + text::decimal(pulled.updated@.len()) + " "@),
        text::occurs_in(reported@, "-"@ + text::decimal(pulled.removed@.len()) + " "@),
        text::occurs_in(reported@, "!"@ + text::decimal(pulled.conflicts@.len()) + " "@),
        text::occurs_in(reported@, "kept local: "@ + text::decimal(pulled.kept_local@.len()) + ","@),
        text::ends(reported@, "unchanged: "@ + text::decimal(pulled.skipped@.len()) + ")"@),
{
    let count = text::decimal(pushed.pushed_count as nat);
    let size = text::decimal(pushed.ciphertext_size as nat);
    reveal_strlit(" vault(s) (");
    reveal_strlit(" ");
    reveal_strlit("vault(s)");
    reveal_strlit(" (");
    assert(" vault(s) ("@ =~= " "@ + "vault(s)"@ + " ("@);
    let head = "Pushed "@ + count + " "@;
    let tail = " ("@ + size + " bytes ciphertext)"@;
    assert(told@ =~= head + ("vault(s)"@ + tail));
    text::ends_split_the_text(told@, head);
    assert(told@ =~= (head + "vault(s)"@) + tail);
    text::ends_split_the_text(told@, tail);
    lemma_pull_report(
        text::decimal(pulled.added@.len()),
        text::decimal(pulled.updated@.len()),
        text::decimal(pulled.removed@.len()),
        text::decimal(pulled.conflicts@.len()),
        text::decimal(pulled.kept_local@.len()),
        text::decimal(pulled.skipped@.len()),
        reported@,
    );
}

proof fn lemma_pull_report(
    a: Seq<char>,
    u: Seq<char>,
    r: Seq<char>,
    c: Seq<char>,
    k: Seq<char>,
    s: Seq<char>,
    m: Seq<char>,
)
    requires
        m == "Pull complete: +"@ + a + " ~"@ + u + " -"@ + r + " !"@ + c + " (kept local: "@ + k
            + ", unchanged: "@ + s + ")"@,
    ensures
        text::occurs_in(m, "+"@ + a + " "@),
        text::occurs_in(m, "~"@ + u + " "@),
        text::occurs_in(m, "-"@ + r + " "@),
        text::occurs_in(m, "!"@ + c + " "@),
        text::occurs_in(m, "kept local: "@ + k + ","@),
        text::ends(m, "unchanged: "@ + s + ")"@),
{
    reveal_strlit("Pull complete: +");
    reveal_strlit("Pull complete: ");
    reveal_strlit("+");
    reveal_strlit(" ~");
    reveal_strlit("~");
    reveal_strlit(" -");
    reveal_strlit("-");
    reveal_strlit(" !");
    reveal_strlit("!");
    reveal_strlit(" (kept local: ");
    reveal_strlit("(");
    reveal_strlit("kept local: ");
    reveal_strlit(", unchanged: ");
    reveal_strlit(",");
    reveal_strlit(" ");
    reveal_strlit("unchanged: ");
    assert("Pull complete: +"@ =~= "Pull complete: "@ + "+"@);
    assert(" ~"@ =~= " "@ + "~"@);
    assert(" -"@ =~= " "@ + "-"@);
    assert(" !"@ =~= " "@ + "!"@);
    assert(" (kept local: "@ =~= " "@ + "("@ + "kept local: "@);
    assert(", unchanged: "@ =~= ","@ + " "@ + "unchanged: "@);
    let p1 = "+"@ + a + " "@;
    let p2 = "~"@ + u + " "@;
    let p3 = "-"@ + r + " "@;
    let p4 = "!"@ + c + " "@;
    let p5 = "kept local: "@ + k + ","@;
    let p6 = "unchanged: "@ + s + ")"@;
    let h1 = "Pull complete: "@;
    let h2 = h1 + p1;
    let h3 = h2 + p2;
    let h4 = h3 + p3;
    let h5 = h4 + p4 + "("@;
    let h6 = h5 + p5 + " "@;
    assert(m =~= h6 + p6);
    assert(m =~= h5 + p5 + (" "@ + p6));
    assert(m =~= h4 + p4 + ("("@ + p5 + " "@ + p6));
    assert(m =~= h3 + p3 + (p4 + "("@ + p5 + " "@ + p6));
    assert(m =~= h2 + p2 + (p3 + p4 + "("@ + p5 + " "@ + p6));
    assert(m =~= h1 + p1 + (p2 + p3 + p4 + "("@ + p5 + " "@ + p6));
    text::part_occurs(h1, p1, p2 + p3 + p4 + "("@ + p5 + " "@ + p6);
    text::part_occurs(h2, p2, p3 + p4 + "("@ + p5 + " "@ + p6);
    text::part_occurs(h3, p3, p4 + "("@ + p5 + " "@ + p6);
    text::part_occurs(h4, p4, "("@ + p5 + " "@ + p6);
    text::part_occurs(h5, p5, " "@ + p6);
    text::ends_split_the_text(m, p6);
}

/// The report of an aborted push counts the conflicts and lists every one of them.
pub proof fn conflict_report_names_the_ids(ids: &Vec<String>, r: Vec<String>)
    requires
        call_ensures(conflict_report, (ids,), r),
    ensures
        r@.len() == 2,
        text::occurs_in(r@[0]@, text::decimal(ids@.len())),
        text::ends(r@[0]@, comma_list(text::views(ids@))),
        text::occurs_in(r@[1]@, "avpm sync pull"@),
{
    let lines = text::views(r@);
    assert(lines.len() == r@.len());
    assert(lines[0] == r@[0]@ && lines[1] == r@[1]@);
    let n = text::decimal(ids@.len());
    let list = comma_list(text::views(ids@));
    let tail = " conflict(s): "@ + list;
    assert(r@[0]@ =~= "Push aborted: "@ + n + tail);
    text::part_occurs("Push aborted: "@, n, tail);
    assert(r@[0]@ == ("Push aborted: "@ + n + " conflict(s): "@) + list);
    text::ends_split_the_text(r@[0]@, list);
    reveal_strlit("Run `avpm sync pull` to resolve interactively, then push again.");
    reveal_strlit("avpm sync pull");
    assert(r@[1]@.subrange(5, 19) =~= "avpm sync pull"@);
    assert(text::occurs_at(r@[1]@, "avpm sync pull"@, 5));
}

} // verus!
