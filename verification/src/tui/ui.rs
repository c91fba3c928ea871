//! What the TUI shows: the texts of every panel, ready to be laid out.
//!
//! Single view: title bar (count + quit hint), list area, footer (status line +
//! keybinding hints). Popups are centered panels over the main view. The form
//! popup shows one field per input with the focused field highlighted; password
//! fields are masked.

use vstd::prelude::*;

use crate::text;
use crate::tui::app::{App, FormKind, Mode};
use crate::tui::input::TextField;
use crate::vault::secret::VaultSecret;
use crate::vault::store::VaultStore;

verus! {

/// The text of the title bar for `count` vaults.
pub open spec fn title(count: nat) -> Seq<char> {
    " avpm — Vault Secrets ("@ + text::decimal(count) + ") "@
}

/// The text of the title bar.
pub fn title_text<S: VaultStore>(app: &App<S>) -> (r: String)
    ensures
        r@ == title(app.items@.len()),
{
    let n = text::decimal_text(app.items.len() as u64);
    text::join3(" avpm — Vault Secrets (", n.as_str(), ") ")
}

/// The status line: the message, or the program's name where there is none or
/// it is empty.
pub fn status_line<S: VaultStore>(app: &App<S>) -> (r: String)
    ensures
        r@ == match app.message {
            Some(message) if message@.len() > 0 => message@,
            _ => " avpm"@,
        },
{
    match &app.message {
        Some(message) => {
            if message.as_str().is_empty() {
                " avpm".to_owned()
            } else {
                message.clone()
            }
        },
        None => " avpm".to_owned(),
    }
}

/// Mode-specific keybinding hints (contextual footer).
pub open spec fn hints(mode: Mode) -> Seq<char> {
    match mode {
        Mode::Normal =>
            "[y] copy  [Enter] show  [e] edit  [a] add  [d] delete  [r] rename  [/] search  [?] help  [q] quit"@,
        Mode::ShowPassword { reveal } => if reveal {
            "[Space] hide  [y] copy  [Esc] back"@
        } else {
            "[Space] reveal  [y] copy  [Esc] back"@
        },
        Mode::Search => "type to filter  [Esc] cancel"@,
        Mode::Form { kind, .. } => if kind == FormKind::Rename {
            "[Tab] next field  [Enter] submit  [Esc] cancel"@
        } else {
            "[Tab] next field  [g] generate  [Enter] submit  [Esc] cancel"@
        },
        Mode::ConfirmDelete => "[Enter] confirm delete  [Esc] cancel"@,
        Mode::SyncMenu => "[Esc] close"@,
        Mode::Help => "[any key] close"@,
    }
}

/// Mode-specific keybinding hints (contextual footer).
pub fn contextual_hints(mode: &Mode) -> (r: String)
    ensures
        r@ == hints(*mode),
{
    let hint = match mode {
        Mode::Normal =>
            "[y] copy  [Enter] show  [e] edit  [a] add  [d] delete  [r] rename  [/] search  [?] help  [q] quit",
        Mode::ShowPassword { reveal } => if *reveal {
            "[Space] hide  [y] copy  [Esc] back"
        } else {
            "[Space] reveal  [y] copy  [Esc] back"
        },
        Mode::Search => "type to filter  [Esc] cancel",
        Mode::Form { kind, .. } => if *kind == FormKind::Rename {
            "[Tab] next field  [Enter] submit  [Esc] cancel"
        } else {
            "[Tab] next field  [g] generate  [Enter] submit  [Esc] cancel"
        },
        Mode::ConfirmDelete => "[Enter] confirm delete  [Esc] cancel",
        Mode::SyncMenu => "[Esc] close",
        Mode::Help => "[any key] close",
    };
    hint.to_owned()
}

/// The margin that centers something of size `size` in `total` cells.
pub fn centered_margin(total: u16, size: u16) -> (r: u16)
    requires
        size <= total,
    ensures
        r == (total - size) / 2,
        r + size <= total,
{
    (total - size) / 2
}

// ---------------------------------------------------------------------------
// Password popup
// ---------------------------------------------------------------------------
/// The password popup.
pub struct PasswordView {
    pub heading: String,
    pub display: String,
    pub hint: String,
}

/// What stands for a password: itself where it is revealed, else one dot per
/// character.
pub open spec fn password_display(secret: Option<VaultSecret>, reveal: bool) -> Seq<char> {
    match secret {
        Some(s) => if reveal {
            s@
        } else {
            text::repeated('•', s@.len())
        },
        None => Seq::empty(),
    }
}

/// The hint below a password.
pub open spec fn password_hint(secret: Option<VaultSecret>, reveal: bool) -> Seq<char> {
    match secret {
        Some(_) => if reveal {
            "[Space] hide"@
        } else {
            "[Space] reveal"@
        },
        None => "(no password loaded; press Esc and try again)"@,
    }
}

/// The name of the selected vault in a popup.
pub open spec fn selected_name<S: VaultStore>(app: App<S>) -> Seq<char> {
    match app.selection() {
        Some(id) => id,
        None => "(none)"@,
    }
}

fn selected_label<S: VaultStore>(app: &App<S>) -> (r: String)
    ensures
        r@ == selected_name(*app),
{
    match app.selected_id() {
        Some(id) => id.to_owned(),
        None => "(none)".to_owned(),
    }
}

/// The password popup of an app.
pub fn password_view<S: VaultStore>(app: &App<S>, reveal: bool) -> (r: PasswordView)
    ensures
        r.heading@ == "Vault: "@ + selected_name(*app),
        r.display@ == password_display(app.shown_secret, reveal),
        r.hint@ == password_hint(app.shown_secret, reveal) + "   [y] copy   [Esc] back"@,
{
    let id = selected_label(app);
    let (display, hint) = match &app.shown_secret {
        Some(secret) => if reveal {
            (secret.as_str().to_owned(), "[Space] hide")
        } else {
            let dots: usize = text::chars_of(secret.as_str()).len();
            (text::repeat('•', dots), "[Space] reveal")
        },
        None => (String::new(), "(no password loaded; press Esc and try again)"),
    };
    PasswordView {
        heading: text::join2("Vault: ", id.as_str()),
        display,
        hint: text::join2(hint, "   [y] copy   [Esc] back"),
    }
}

/// The password popup names the selected vault-id and shows the password where it is
/// revealed, else a dot for every character.
pub proof fn popup_shows_the_password_when_revealed<S: VaultStore>(
    app: &App<S>,
    reveal: bool,
    r: PasswordView,
    secret: VaultSecret,
)
    requires
        call_ensures(password_view::<S>, (app, reveal), r),
        app.shown_secret == Some(secret),
    ensures
        reveal ==> r.display@ == secret@,
        !reveal ==> r.display@.len() == secret@.len() && forall|i: int|
            0 <= i < secret@.len() ==> #[trigger] r.display@[i] == '•',
        app.selection() matches Some(id) ==> text::ends(r.heading@, id),
{
    if let Some(id) = app.selection() {
        text::ends_split_the_text("Vault: "@ + id, id);
    }
}

/// The title tells how many vaults there are; the question of the delete popup and the line
/// of the search popup tell what they are about.
pub proof fn panels_tell_what_they_are_about<S: VaultStore>(
    app: &App<S>,
    title_shown: String,
    asked: String,
    searched: String,
)
    requires
        call_ensures(title_text::<S>, (app,), title_shown),
        call_ensures(delete_question::<S>, (app,), asked),
        call_ensures(search_line::<S>, (app,), searched),
    ensures
        text::occurs_in(title_shown@, text::decimal(app.items@.len())),
        app.selection() matches Some(id) ==> text::occurs_in(asked@, id),
        text::ends(searched@, app.search@),
{
    text::part_occurs(" avpm — Vault Secrets ("@, text::decimal(app.items@.len()), ") "@);
    if let Some(id) = app.selection() {
        text::part_occurs("Delete '"@, id, "'?"@);
    }
    text::ends_split_the_text("/"@ + app.search@, app.search@);
}

/// A hidden password shows nothing but its length.
pub proof fn hidden_password_tells_only_the_length(a: VaultSecret, b: VaultSecret)
    requires
        a@.len() == b@.len(),
    ensures
        password_display(Some(a), false) == password_display(Some(b), false),
{
}

// ---------------------------------------------------------------------------
// Form popup
// ---------------------------------------------------------------------------
/// One field of the form popup.
pub struct FieldView {
    pub label: &'static str,
    /// The text to show, masked where the field is secret.
    pub display: String,
    pub focused: bool,
}

/// The form popup.
pub struct FormView {
    pub title: String,
    /// Rows it takes: a title line, then per field a label and a bordered line.
    pub height: u16,
    pub fields: Vec<FieldView>,
    /// The column of the cursor in the focused field.
    pub cursor: Option<usize>,
}

/// The title of a form.
pub open spec fn form_title(kind: FormKind) -> Seq<char> {
    match kind {
        FormKind::Add => " Add Vault "@,
        FormKind::Edit => " Edit Password "@,
        FormKind::Rename => " Rename Vault ID "@,
    }
}

/// The form popup for `fields`, of which `focus` is in focus.
pub fn form_view(kind: FormKind, focus: usize, fields: &Vec<TextField>) -> (r: FormView)
    requires
        fields@.len() == kind.fields(),
    ensures
        r.title@ == form_title(kind),
        r.height == kind.fields() * 4 + 1,
        r.fields@.len() == kind.fields(),
        forall|i: int|
            0 <= i < kind.fields() ==> {
                &&& (#[trigger] r.fields@[i]).label@ == kind.label_at(i)
                &&& r.fields@[i].display@ == crate::tui::input::displayed(
                    fields@[i]@,
                    fields@[i].mask_char(),
                )
                &&& r.fields@[i].focused == (i == focus)
            },
        match r.cursor {
            Some(column) => focus < kind.fields() && column == fields@[focus as int].at(),
            None => focus >= kind.fields(),
        },
{
    let title = match kind {
        FormKind::Add => " Add Vault ",
        FormKind::Edit => " Edit Password ",
        FormKind::Rename => " Rename Vault ID ",
    };
    let n: usize = kind.field_count();
    let mut views: Vec<FieldView> = Vec::new();
    for i in 0..n
        invariant
            n == kind.fields(),
            fields@.len() == n,
            views@.len() == i,
            forall|j: int|
                0 <= j < i ==> {
                    &&& (#[trigger] views@[j]).label@ == kind.label_at(j)
                    &&& views@[j].display@ == crate::tui::input::displayed(
                        fields@[j]@,
                        fields@[j].mask_char(),
                    )
                    &&& views@[j].focused == (j == focus)
                },
    {
        views.push(
            FieldView {
                label: kind.field_label(i),
                display: fields[i].display(),
                focused: i == focus,
            },
        );
    }
    let cursor = if focus < n {
        Some(fields[focus].cursor_col())
    } else {
        None
    };
    FormView { title: title.to_owned(), height: n as u16 * 4 + 1, fields: views, cursor }
}

// ---------------------------------------------------------------------------
// Other popups
// ---------------------------------------------------------------------------
/// The question of the delete popup.
pub fn delete_question<S: VaultStore>(app: &App<S>) -> (r: String)
    ensures
        r@ == "Delete '"@ + selected_name(*app) + "'?"@,
{
    let id = selected_label(app);
    text::join3("Delete '", id.as_str(), "'?")
}

/// The line of the search popup.
pub fn search_line<S: VaultStore>(app: &App<S>) -> (r: String)
    ensures
        r@ == "/"@ + app.search@,
{
    text::join2("/", app.search.as_str())
}

/// The lines of the sync popup.
pub open spec fn sync_text() -> Seq<Seq<char>> {
    seq![
        "Run from the shell (passphrase prompt):"@,
        "  avpm sync push | pull | status"@,
        "[Esc] close"@,
    ]
}

/// The lines of the sync popup.
pub fn sync_lines() -> (r: Vec<&'static str>)
    ensures
        r@.map_values(|s: &'static str| s@) == sync_text(),
{
    let lines = vec![
        "Run from the shell (passphrase prompt):",
        "  avpm sync push | pull | status",
        "[Esc] close",
    ];
    assert(lines@.map_values(|s: &'static str| s@) =~= sync_text());
    lines
}

/// The lines of the help popup.
pub open spec fn help_text() -> Seq<Seq<char>> {
    seq![
        "avpm TUI keybindings"@,
        ""@,
        "j/k or ↓/↑   move selection"@,
        "g / G         top / bottom"@,
        "Enter         show password (Space to reveal)"@,
        "e             edit selected password"@,
        "a / n         add new vault-id"@,
        "d             delete selected"@,
        "r             rename selected"@,
        "/             search / filter"@,
        "y             copy password to clipboard"@,
        "?             this help"@,
        "q / Esc       quit / cancel"@,
        ""@,
        "[any key] close"@,
    ]
}

/// The lines of the help popup.
pub fn help_lines() -> (r: Vec<&'static str>)
    ensures
        r@.map_values(|s: &'static str| s@) == help_text(),
{
    let lines = vec![
        "avpm TUI keybindings",
        "",
        "j/k or ↓/↑   move selection",
        "g / G         top / bottom",
        "Enter         show password (Space to reveal)",
        "e             edit selected password",
        "a / n         add new vault-id",
        "d             delete selected",
        "r             rename selected",
        "/             search / filter",
        "y             copy password to clipboard",
        "?             this help",
        "q / Esc       quit / cancel",
        "",
        "[any key] close",
    ];
    assert(lines@.map_values(|s: &'static str| s@) =~= help_text());
    lines
}

} // verus!
