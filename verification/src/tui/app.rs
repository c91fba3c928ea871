//! TUI state machine.
//!
//! The `App` owns the vault list, selection, current mode, and - crucially -
//! the live `store` and `index`. Every operation (copy/show/delete/add/edit/
//! rename) is performed inline in `handle_event` against that store, so the
//! interface never tears down to execute a side effect. Operation feedback is
//! written to `message` and shown on the next frame.
//!
//! Two things are left to the caller. The clipboard: a copy puts the password
//! into `pending_copy`, and `finish_copy` takes the outcome. The index file: it
//! is written back after each event where the index says that it changed.

use vstd::prelude::*;

use crate::error::Error;
use crate::index::VaultIndex;
use crate::password;
use crate::text;
use crate::tui::event::{EventResult, KeyCode, KeyEvent};
use crate::tui::input::TextField;
use crate::vault::secret::VaultSecret;
use crate::vault::store::VaultStore;

verus! {

/// A vault entry row in the TUI list.
#[derive(Debug)]
pub struct VaultItem {
    pub id: String,
}

/// Which form is active; determines the field set and submit action.
#[derive(Debug, Clone, Copy, PartialEq, Eq, Structural)]
pub enum FormKind {
    /// Add a new vault-id. Fields: vault-id, password, confirm.
    Add,
    /// Edit an existing vault's password. Fields: password, confirm.
    Edit,
    /// Rename a vault-id. Fields: new-id.
    Rename,
}

/// TUI interaction mode.
#[derive(Debug, Clone, Copy, PartialEq, Eq, Structural)]
pub enum Mode {
    Normal,
    Search,
    ShowPassword { reveal: bool },
    /// Multi-field popup form (add/edit/rename). `focus` is the active field
    /// index. The field set is determined by [`FormKind`].
    Form { kind: FormKind, focus: usize },
    ConfirmDelete,
    SyncMenu,
    Help,
}

impl FormKind {
    /// Number of input fields.
    pub open spec fn fields(&self) -> int {
        match self {
            FormKind::Add => 3,
            FormKind::Edit => 2,
            FormKind::Rename => 1,
        }
    }

    /// Field `i` is a secret (masked password) field.
    pub open spec fn secret_at(&self, i: int) -> bool {
        match self {
            FormKind::Add => i == 1 || i == 2,
            FormKind::Edit => i == 0 || i == 1,
            FormKind::Rename => false,
        }
    }

    /// The label of field `i`.
    pub open spec fn label_at(&self, i: int) -> Seq<char> {
        match self {
            FormKind::Add => if i == 0 {
                "Vault ID"@
            } else if i == 1 {
                "Password"@
            } else {
                "Confirm"@
            },
            FormKind::Edit => if i == 0 {
                "New Password"@
            } else {
                "Confirm"@
            },
            FormKind::Rename => "New Vault ID"@,
        }
    }

    /// Number of input fields for this form.
    #[must_use]
    pub fn field_count(&self) -> (r: usize)
        ensures
            r == self.fields(),
    {
        match self {
            FormKind::Add => 3,
            FormKind::Edit => 2,
            FormKind::Rename => 1,
        }
    }

    /// Whether field `i` is a secret (masked password) field.
    #[must_use]
    pub fn is_secret_field(&self, i: usize) -> (r: bool)
        ensures
            r == self.secret_at(i as int),
    {
        match self {
            FormKind::Add => i == 1 || i == 2,
            FormKind::Edit => i == 0 || i == 1,
            FormKind::Rename => false,
        }
    }

    /// Human-readable label for field `i`.
    #[must_use]
    pub fn field_label(&self, i: usize) -> (r: &'static str)
        ensures
            r@ == self.label_at(i as int),
    {
        match self {
            FormKind::Add => if i == 0 {
                "Vault ID"
            } else if i == 1 {
                "Password"
            } else {
                "Confirm"
            },
            FormKind::Edit => if i == 0 {
                "New Password"
            } else {
                "Confirm"
            },
            FormKind::Rename => "New Vault ID",
        }
    }
}

/// Every field of a form is secret but one for a vault-id, which is the first of the forms
/// that have one.
pub proof fn every_field_but_an_id_is_secret(kind: FormKind, i: int)
    requires
        0 <= i < kind.fields(),
    ensures
        kind.secret_at(i) <==> kind.label_at(i) != "Vault ID"@ && kind.label_at(i)
            != "New Vault ID"@,
        !kind.secret_at(i) <==> i == 0 && kind != FormKind::Edit,
        kind == FormKind::Add ==> kind.fields() == 3,
        kind == FormKind::Edit ==> kind.fields() == 2,
        kind == FormKind::Rename ==> kind.fields() == 1,
{
    reveal_strlit("Vault ID");
    reveal_strlit("New Vault ID");
    reveal_strlit("Password");
    reveal_strlit("New Password");
    reveal_strlit("Confirm");
    assert("Vault ID"@[0] == 'V' && "Password"@[0] == 'P' && "Confirm"@[0] == 'C');
    assert("New Vault ID"@[4] == 'V' && "New Password"@[4] == 'P');
    assert("Vault ID"@.len() == 8 && "New Vault ID"@.len() == 12 && "New Password"@.len() == 12
        && "Password"@.len() == 8 && "Confirm"@.len() == 7);
}

/// Which row of the list is selected.
#[derive(Debug, Clone, Copy, PartialEq, Eq, Structural)]
pub struct ListState {
    pub selected: Option<usize>,
}

impl ListState {
    /// The selected row.
    #[must_use]
    pub fn selected(&self) -> (r: Option<usize>)
        ensures
            r == self.selected,
    {
        self.selected
    }

    /// Select a row, or none.
    pub fn select(&mut self, row: Option<usize>)
        ensures
            final(self).selected == row,
    {
        self.selected = row;
    }
}

/// A password on its way to the clipboard.
pub struct PendingCopy {
    pub id: String,
    pub secret: VaultSecret,
}

/// The TUI application state. `index` is `None` for the single-password `show`
/// view, where no list or mutation is possible.
pub struct App<S: VaultStore> {
    pub store: S,
    pub index: Option<VaultIndex>,
    pub items: Vec<VaultItem>,
    pub state: ListState,
    pub mode: Mode,
    /// Search filter (active in `Mode::Search`).
    pub search: String,
    /// Status / feedback line shown in the footer.
    pub message: Option<String>,
    /// Currently-revealed password (held in `ShowPassword`).
    pub shown_secret: Option<VaultSecret>,
    /// What is to be put on the clipboard.
    pub pending_copy: Option<PendingCopy>,
    /// Clipboard auto-clear deadline in milliseconds; `None` = no clear pending.
    pub copy_deadline: Option<u64>,
    /// Clipboard auto-clear window in seconds (0 = disabled).
    pub clipboard_clear_seconds: u16,
    /// Form text fields, one per active field. Only meaningful in `Mode::Form`.
    pub form_fields: Vec<TextField>,
    pub quit: bool,
}

// ---------------------------------------------------------------------------
// The list
// ---------------------------------------------------------------------------
/// The vault-ids of a list of rows.
pub open spec fn item_ids(items: Seq<VaultItem>) -> Seq<Seq<char>> {
    items.map_values(|item: VaultItem| item.id@)
}

/// The vault-ids that contain the search text, in order.
pub open spec fn visible(ids: Seq<Seq<char>>, search: Seq<char>) -> Seq<Seq<char>>
    decreases ids.len(),
{
    if ids.len() == 0 {
        Seq::empty()
    } else {
        let before = visible(ids.drop_last(), search);
        if text::occurs_in(ids.last(), search) {
            before.push(ids.last())
        } else {
            before
        }
    }
}

/// An empty search hides nothing.
pub proof fn empty_search_shows_all(ids: Seq<Seq<char>>)
    ensures
        visible(ids, Seq::empty()) == ids,
    decreases ids.len(),
{
    if ids.len() > 0 {
        empty_search_shows_all(ids.drop_last());
        assert(ids.last().subrange(0, 0) =~= Seq::<char>::empty());
        assert(text::occurs_at(ids.last(), Seq::empty(), 0));
        assert(ids.drop_last().push(ids.last()) =~= ids);
    } else {
        assert(ids =~= Seq::<Seq<char>>::empty());
    }
}

/// A search shows exactly the rows that the search text occurs in, in the order in which
/// they are.
pub proof fn search_shows_what_it_occurs_in(
    ids: Seq<Seq<char>>,
    search: Seq<char>,
    id: Seq<char>,
)
    ensures
        visible(ids, search).contains(id) <==> ids.contains(id) && exists|
            before: Seq<char>,
            after: Seq<char>,
        |
            id == #[trigger] (before + search + after),
        text::strictly_sorted(ids) ==> text::strictly_sorted(visible(ids, search)),
    decreases ids.len(),
{
    text::occurrence_splits_the_text(id, search);
    if ids.len() > 0 {
        let n = ids.len() - 1;
        let before = ids.drop_last();
        let rows0 = visible(before, search);
        let rows = visible(ids, search);
        search_shows_what_it_occurs_in(before, search, id);
        if ids.contains(id) {
            let i = ids.index_of(id);
            if i < n {
                assert(before[i] == id);
            }
        }
        if before.contains(id) {
            assert(ids[before.index_of(id)] == id);
        }
        assert(ids[n] == ids.last());
        if text::occurs_in(ids.last(), search) {
            if rows0.contains(id) {
                assert(rows[rows0.index_of(id)] == id);
            }
            assert(rows[rows0.len() as int] == ids.last());
            if rows.contains(id) {
                let i = rows.index_of(id);
                if i < rows0.len() {
                    assert(rows0[i] == id);
                }
            }
        }
        if text::strictly_sorted(ids) {
            assert forall|i: int, j: int| 0 <= i < j < before.len() implies text::text_less(
                #[trigger] before[i],
                #[trigger] before[j],
            ) by {
                assert(text::text_less(ids[i], ids[j]));
            }
            assert forall|i: int, j: int| 0 <= i < j < rows.len() implies text::text_less(
                #[trigger] rows[i],
                #[trigger] rows[j],
            ) by {
                if j < rows0.len() {
                    assert(text::text_less(rows0[i], rows0[j]));
                } else {
                    lemma_visible_are_items(before, search, i);
                    let k = before.index_of(rows0[i]);
                    assert(ids[k] == rows[i]);
                    assert(text::text_less(ids[k], ids[n]));
                }
            }
        }
    }
}

/// The store refused a read of `id`.
pub open spec fn read_refused<S: VaultStore>(store: S, id: Seq<char>) -> bool {
    exists|key: &str, r: Result<VaultSecret, Error>|
        key@ == id && r is Err && #[trigger] call_ensures(S::get, (&store, key), r)
}

/// The store answered a read of `id` with `e`.
pub open spec fn read_failed<S: VaultStore>(store: S, id: Seq<char>, e: Error) -> bool {
    exists|key: &str| key@ == id && #[trigger] call_ensures(S::get, (&store, key), Err(e))
}

/// A list of rows for a store and the indexed ids: in ascending order, each an
/// indexed id that the store holds; an indexed id is left out only where the
/// store refuses to read it.
pub open spec fn lists<S: VaultStore>(
    rows: Seq<Seq<char>>,
    store: S,
    indexed: Set<Seq<char>>,
) -> bool {
    &&& text::strictly_sorted(rows)
    &&& forall|k: Seq<char>| #[trigger]
        rows.contains(k) ==> indexed.contains(k) && store.contents().contains_key(k)
    &&& forall|k: Seq<char>| #[trigger]
        indexed.contains(k) && !rows.contains(k) ==> read_refused(store, k) && (store.reliable()
            ==> !store.contents().contains_key(k))
}

/// One of the first `n` texts is `x`.
spec fn among(texts: Seq<Seq<char>>, n: int, x: Seq<char>) -> bool {
    exists|a: int| 0 <= a < n && texts[a] == x
}

/// The rows for a store and a listing of its index.
fn readable_items<S: VaultStore>(store: &S, ids: Vec<String>, indexed: Ghost<Set<Seq<char>>>) -> (r:
    Vec<VaultItem>)
    requires
        text::strictly_sorted(text::views(ids@)),
        forall|k: Seq<char>| text::views(ids@).contains(k) <==> indexed@.contains(k),
    ensures
        lists(item_ids(r@), *store, indexed@),
{
    let mut items: Vec<VaultItem> = Vec::new();
    let ghost all = text::views(ids@);
    assert(item_ids(items@) =~= Seq::<Seq<char>>::empty());
    for i in 0..ids.len()
        invariant
            all == text::views(ids@),
            text::strictly_sorted(all),
            text::strictly_sorted(item_ids(items@)),
            forall|j: int|
                0 <= j < items@.len() ==> among(all, i as int, #[trigger] item_ids(items@)[j]),
            forall|j: int|
                0 <= j < items@.len() ==> store.contents().contains_key(
                    #[trigger] item_ids(items@)[j],
                ),
            forall|a: int|
                0 <= a < i ==> item_ids(items@).contains(#[trigger] all[a]) || read_refused(
                    *store,
                    all[a],
                ),
    {
        let ghost before = item_ids(items@);
        let outcome = store.get(ids[i].as_str());
        assert(all[i as int] == ids@[i as int]@);
        if outcome.is_ok() {
            items.push(VaultItem { id: ids[i].clone() });
            proof {
                let after = item_ids(items@);
                assert(after =~= before.push(all[i as int]));
                assert forall|p: int, q: int| 0 <= p < q < after.len() implies text::text_less(
                    #[trigger] after[p],
                    #[trigger] after[q],
                ) by {
                    if q == before.len() {
                        let a = choose|a: int| 0 <= a < i && all[a] == before[p];
                        assert(text::text_less(all[a], all[i as int]));
                    } else {
                        assert(text::text_less(before[p], before[q]));
                    }
                }
                assert forall|j: int| 0 <= j < items@.len() implies among(
                    all,
                    i + 1,
                    #[trigger] item_ids(items@)[j],
                ) by {
                    if j < before.len() {
                        let a = choose|a: int| 0 <= a < i && all[a] == before[j];
                        assert(0 <= a < i + 1 && all[a] == after[j]);
                    } else {
                        assert(all[i as int] == after[j]);
                    }
                }
                assert forall|a: int| 0 <= a < i + 1 implies after.contains(#[trigger] all[a])
                    || read_refused(*store, all[a]) by {
                    if a == i {
                        assert(after[before.len() as int] == all[a]);
                    } else if before.contains(all[a]) {
                        let j = before.index_of(all[a]);
                        assert(after[j] == all[a]);
                    }
                }
            }
        } else {
            assert(read_refused(*store, all[i as int]));
            assert forall|j: int| 0 <= j < items@.len() implies among(
                all,
                i + 1,
                #[trigger] item_ids(items@)[j],
            ) by {
                let a = choose|a: int| 0 <= a < i && all[a] == before[j];
                assert(0 <= a < i + 1 && all[a] == before[j]);
            }
        }
    }
    proof {
        let rows = item_ids(items@);
        assert forall|k: Seq<char>| #[trigger] rows.contains(k) implies indexed@.contains(k)
            && store.contents().contains_key(k) by {
            let j = rows.index_of(k);
            assert(rows[j] == k);
            let a = choose|a: int| 0 <= a < ids@.len() && all[a] == rows[j];
            assert(all.contains(k));
        }
        assert forall|k: Seq<char>| #[trigger]
            indexed@.contains(k) && !rows.contains(k) implies read_refused(*store, k) && (
        store.reliable() ==> !store.contents().contains_key(k)) by {
            assert(all.contains(k));
            let a = all.index_of(k);
            assert(all[a] == k);
        }
    }
    items
}

/// The first row with `id`.
fn position(items: &Vec<VaultItem>, id: &str) -> (r: Option<usize>)
    ensures
        match r {
            Some(p) => p < items@.len() && item_ids(items@)[p as int] == id@ && (forall|j: int|
                0 <= j < p ==> #[trigger] item_ids(items@)[j] != id@),
            None => !item_ids(items@).contains(id@),
        },
{
    for i in 0..items.len()
        invariant
            forall|j: int| 0 <= j < i ==> #[trigger] item_ids(items@)[j] != id@,
    {
        if text::same(items[i].id.as_str(), id) {
            return Some(i);
        }
    }
    None
}

/// The row to select after a reload: that of the id that was selected, or the
/// first one.
pub open spec fn reselects(
    row: Option<usize>,
    previous: Option<Seq<char>>,
    rows: Seq<Seq<char>>,
) -> bool {
    match previous {
        Some(id) if rows.contains(id) => row matches Some(p) && p < rows.len() && rows[p as int]
            == id,
        _ => row == if rows.len() == 0 {
            None
        } else {
            Some(0usize)
        },
    }
}

/// The row that a step down or up leads to, from row `from` of `n`: past an end
/// it comes back at the other.
pub open spec fn stepped(from: int, n: int, down: bool) -> int {
    if down {
        if from + 1 >= n {
            0
        } else {
            from + 1
        }
    } else if from == 0 {
        n - 1
    } else if from - 1 >= n {
        0
    } else {
        from - 1
    }
}

/// A step leads to the next row, and past an end to the other one.
pub proof fn steps_go_round(from: int, n: int)
    requires
        0 <= from < n,
    ensures
        stepped(from, n, true) == (from + 1) % n,
        stepped(from, n, false) == (from + n - 1) % n,
{
    tab_and_back_tab_undo_each_other(from, n);
}

/// Steps down and up take each other back, from every row.
pub proof fn steps_undo_each_other(from: int, n: int)
    requires
        0 <= from < n,
    ensures
        stepped(stepped(from, n, true), n, false) == from,
        stepped(stepped(from, n, false), n, true) == from,
        0 <= stepped(from, n, true) < n,
        0 <= stepped(from, n, false) < n,
{
}

// ---------------------------------------------------------------------------
// Steps
// ---------------------------------------------------------------------------
/// The text of form field `i`; empty where there is no such field.
pub open spec fn field_text(fields: Seq<TextField>, i: int) -> Seq<char> {
    if 0 <= i < fields.len() {
        fields[i]@
    } else {
        Seq::empty()
    }
}

/// The mask of form field `i`: a secret is shown as dots.
pub open spec fn field_mask(kind: FormKind, i: int) -> Option<char> {
    if kind.secret_at(i) {
        Some('•')
    } else {
        None
    }
}

/// The index after a vault-id was added. One that cannot be used stays as it is.
pub open spec fn index_with(
    before: Option<VaultIndex>,
    after: Option<VaultIndex>,
    id: Seq<char>,
) -> bool {
    match (before, after) {
        (None, None) => true,
        (Some(b), Some(a)) => if b.readable() {
            b.with_id(id, a)
        } else {
            a == b
        },
        _ => false,
    }
}

/// The index after a vault-id was removed. One that cannot be used stays as it
/// is.
pub open spec fn index_without(
    before: Option<VaultIndex>,
    after: Option<VaultIndex>,
    id: Seq<char>,
) -> bool {
    match (before, after) {
        (None, None) => true,
        (Some(b), Some(a)) => if b.readable() {
            b.without_id(id, a)
        } else {
            a == b
        },
        _ => false,
    }
}

impl<S: VaultStore> App<S> {
    /// What holds in every state: a form has all its fields, the secret ones and
    /// no others masked, and the focus is on one of them; a password is held
    /// exactly while it is shown.
    pub open spec fn inv(&self) -> bool {
        &&& self.mode matches Mode::Form { kind, focus } ==> {
            &&& self.form_fields@.len() == kind.fields() && focus < kind.fields()
            &&& forall|i: int|
                0 <= i < kind.fields() ==> (#[trigger] self.form_fields@[i]).mask_char()
                    == field_mask(kind, i)
        }
        &&& self.mode is ShowPassword <==> self.shown_secret is Some
    }

    /// The rows that the search shows.
    pub open spec fn shown(&self) -> Seq<Seq<char>> {
        visible(item_ids(self.items@), self.search@)
    }

    /// The selected vault-id.
    pub open spec fn selection(&self) -> Option<Seq<char>> {
        match self.state.selected {
            Some(i) if i < self.shown().len() => Some(self.shown()[i as int]),
            _ => None,
        }
    }

    /// The message is `text`.
    pub open spec fn says(&self, text: Seq<char>) -> bool {
        self.message matches Some(message) && message@ == text
    }

    /// Only the mode and the message differ, and the message is `text`.
    pub open spec fn told(&self, next: Self, mode: Mode, text: Seq<char>) -> bool {
        next == (App { mode, message: next.message, ..*self }) && next.says(text)
    }

    /// The list after a reload, for the store and the index that `next` has.
    /// Without an index, or with one that cannot be used, it stays as it is.
    pub open spec fn list_reloaded(&self, next: Self) -> bool {
        match next.index {
            Some(index) if index.readable() => {
                &&& lists(item_ids(next.items@), next.store, index.ids())
                &&& reselects(next.state.selected, self.selection(), item_ids(next.items@))
            },
            _ => next.items == self.items && next.state == self.state,
        }
    }

    /// Store, index, list, mode and message may differ, the rest does not.
    pub open spec fn operated(&self, next: Self) -> bool {
        next == (App {
            store: next.store,
            index: next.index,
            items: next.items,
            state: next.state,
            mode: Mode::Normal,
            message: next.message,
            ..*self
        })
    }

    // -- construction -------------------------------------------------------
    /// Build an app with the vault list of `store` and `index`. An indexed id
    /// that the store does not give is hidden.
    pub fn load(store: S, index: VaultIndex, clipboard_clear_seconds: u16) -> (r: Result<
        Self,
        Error,
    >)
        ensures
            match r {
                Ok(app) => {
                    &&& app.inv() && index.readable()
                    &&& app.store == store && app.index == Some(index)
                    &&& lists(item_ids(app.items@), store, index.ids())
                    &&& app.state.selected == if app.items@.len() == 0 {
                        None
                    } else {
                        Some(0usize)
                    }
                    &&& app.mode == Mode::Normal && app.search@ == Seq::<char>::empty()
                    &&& app.message is None && app.shown_secret is None && app.pending_copy is None
                    &&& app.copy_deadline is None && app.clipboard_clear_seconds
                        == clipboard_clear_seconds && !app.quit
                },
                Err(e) => !index.readable() && index.failure(e),
            },
    {
        let ids = match index.list() {
            Ok(ids) => ids,
            Err(e) => {
                return Err(e);
            },
        };
        let items = readable_items(&store, ids, Ghost(index.ids()));
        let selected = if items.len() == 0 {
            None
        } else {
            Some(0usize)
        };
        Ok(
            App {
                store,
                index: Some(index),
                items,
                state: ListState { selected },
                mode: Mode::Normal,
                search: String::new(),
                message: None,
                shown_secret: None,
                pending_copy: None,
                copy_deadline: None,
                clipboard_clear_seconds,
                form_fields: Vec::new(),
                quit: false,
            },
        )
    }

    /// Build a single-password show-only app (for `avpm show <id>`). No index
    /// is attached, so list mutations are unavailable - only reveal/copy work.
    #[must_use]
    pub fn show_one(store: S, id: String, secret: VaultSecret, clipboard_clear_seconds: u16) -> (r:
        Self)
        ensures
            r.inv(),
            r.store == store && r.index is None,
            item_ids(r.items@) == seq![id@],
            r.state.selected == Some(0usize),
            r.mode == (Mode::ShowPassword { reveal: false }),
            r.shown_secret == Some(secret),
            r.search@ == Seq::<char>::empty() && r.message is None && r.pending_copy is None,
            r.copy_deadline is None && r.clipboard_clear_seconds == clipboard_clear_seconds
                && !r.quit,
    {
        let ghost id_text = id@;
        let mut items: Vec<VaultItem> = Vec::new();
        items.push(VaultItem { id });
        assert(item_ids(items@) =~= seq![id_text]);
        App {
            store,
            index: None,
            items,
            state: ListState { selected: Some(0) },
            mode: Mode::ShowPassword { reveal: false },
            search: String::new(),
            message: None,
            shown_secret: Some(secret),
            pending_copy: None,
            copy_deadline: None,
            clipboard_clear_seconds,
            form_fields: Vec::new(),
            quit: false,
        }
    }

    // -- reading ------------------------------------------------------------
    /// Whether the user asked to quit.
    #[must_use]
    pub fn should_quit(&self) -> (r: bool)
        ensures
            r == self.quit,
    {
        self.quit
    }

    /// Items filtered by the active search query.
    pub fn filtered_items(&self) -> (r: Vec<&VaultItem>)
        ensures
            r@.len() == self.shown().len(),
            forall|i: int| 0 <= i < r@.len() ==> (#[trigger] r@[i]).id@ == self.shown()[i],
    {
        let mut rows: Vec<&VaultItem> = Vec::new();
        let ghost all = item_ids(self.items@);
        assert(all.take(0) =~= Seq::<Seq<char>>::empty());
        for i in 0..self.items.len()
            invariant
                all == item_ids(self.items@),
                rows@.len() == visible(all.take(i as int), self.search@).len(),
                forall|j: int|
                    0 <= j < rows@.len() ==> (#[trigger] rows@[j]).id@ == visible(
                        all.take(i as int),
                        self.search@,
                    )[j],
        {
            assert(all.take(i + 1).drop_last() =~= all.take(i as int));
            assert(all.take(i + 1).last() == self.items@[i as int].id@);
            if text::contains(self.items[i].id.as_str(), self.search.as_str()) {
                rows.push(&self.items[i]);
            }
        }
        assert(all.take(all.len() as int) =~= all);
        rows
    }

    /// The selected vault-id.
    #[must_use]
    pub fn selected_id(&self) -> (r: Option<&str>)
        ensures
            match r {
                Some(id) => self.selection() == Some(id@),
                None => self.selection() is None,
            },
    {
        match self.state.selected {
            Some(i) => {
                let rows = self.filtered_items();
                if i < rows.len() {
                    Some(rows[i].id.as_str())
                } else {
                    None
                }
            },
            None => None,
        }
    }

    /// The active form's text fields. Empty outside forms.
    #[must_use]
    pub fn form_fields(&self) -> (r: &Vec<TextField>)
        ensures
            *r == self.form_fields,
    {
        &self.form_fields
    }

    /// The selected vault-id, owned.
    fn selected_owned(&self) -> (r: Option<String>)
        ensures
            match r {
                Some(id) => self.selection() == Some(id@),
                None => self.selection() is None,
            },
    {
        match self.selected_id() {
            Some(id) => Some(id.to_owned()),
            None => None,
        }
    }

    /// The text of form field `i`; empty where there is no such field.
    fn field_value(&self, i: usize) -> (r: String)
        ensures
            r@ == field_text(self.form_fields@, i as int),
    {
        if i < self.form_fields.len() {
            self.form_fields[i].value()
        } else {
            String::new()
        }
    }

    // -- reload -------------------------------------------------------------
    /// Reload the item list from the index and store after a mutating operation
    /// so that the list reflects the new state. Selection is preserved when
    /// possible.
    fn reload_items(&mut self)
        ensures
            *final(self) == (App {
                items: final(self).items,
                state: final(self).state,
                ..*old(self)
            }),
            old(self).list_reloaded(*final(self)),
    {
        let listing = match &self.index {
            None => {
                return;
            },
            Some(index) => index.list(),
        };
        let ids = match listing {
            Ok(ids) => ids,
            Err(_) => {
                return;
            },
        };
        let previous = self.selected_owned();
        let indexed: Ghost<Set<Seq<char>>> = Ghost(self.index->0.ids());
        let items = readable_items(&self.store, ids, indexed);
        let first = if items.len() == 0 {
            None
        } else {
            Some(0usize)
        };
        let selected = match previous {
            Some(id) => match position(&items, id.as_str()) {
                Some(p) => Some(p),
                None => first,
            },
            None => first,
        };
        proof {
            if previous is Some && item_ids(items@).contains(previous->0@) {
            } else {
                assert(items@.len() == item_ids(items@).len());
            }
        }
        self.items = items;
        self.state = ListState { selected };
    }
}

// ---------------------------------------------------------------------------
// Operations
// ---------------------------------------------------------------------------
impl<S: VaultStore> App<S> {
    /// The store refused to give the password of `id`, with `e`: only the message
    /// differs.
    pub open spec fn load_failed(&self, next: Self, id: Seq<char>, e: Error) -> bool {
        &&& next == (App { message: next.message, ..*self })
        &&& next.says("Failed to load '"@ + id + "': "@ + e.text())
        &&& read_failed(self.store, id, e)
        &&& self.store.reliable() ==> !self.store.contents().contains_key(id) && e.is_not_found()
    }

    /// What a request for a copy does.
    pub open spec fn copy_requested(&self, next: Self) -> bool {
        match self.selection() {
            None => next == *self,
            Some(id) => {
                ||| {
                    &&& next == (App { pending_copy: next.pending_copy, ..*self })
                    &&& self.store.contents().contains_key(id)
                    &&& next.pending_copy matches Some(copy) && copy.id@ == id && copy.secret@
                        == self.store.contents()[id]
                }
                ||| exists|e: Error| #[trigger] self.load_failed(next, id, e)
            },
        }
    }

    /// Put the selected vault's password on its way to the clipboard.
    fn do_copy(&mut self)
        ensures
            old(self).copy_requested(*final(self)),
    {
        let id = match self.selected_owned() {
            Some(id) => id,
            None => {
                return;
            },
        };
        match self.store.get(id.as_str()) {
            Ok(secret) => {
                self.pending_copy = Some(PendingCopy { id, secret });
            },
            Err(e) => {
                let cause = e.message();
                let mut message = text::join3("Failed to load '", id.as_str(), "': ");
                message.append(cause.as_str());
                self.message = Some(message);
                assert(old(self).load_failed(*self, old(self).selection()->0, e));
            },
        }
    }

    /// What the outcome of a copy does at the time `now` (in milliseconds).
    pub open spec fn copy_finished(
        &self,
        next: Self,
        outcome: Result<(), String>,
        now: u64,
    ) -> bool {
        match self.pending_copy {
            None => next == *self,
            Some(copy) => {
                let secs = self.clipboard_clear_seconds;
                &&& next == (App {
                    pending_copy: None,
                    message: next.message,
                    copy_deadline: if outcome is Ok && secs > 0 {
                        Some((now + secs * 1000) as u64)
                    } else {
                        self.copy_deadline
                    },
                    ..*self
                })
                &&& match outcome {
                    Ok(()) => if secs > 0 {
                        next.says(
                            "Copied '"@ + copy.id@ + "' (clears in "@ + text::decimal(secs as nat)
                                + "s)"@,
                        )
                    } else {
                        next.says("Copied '"@ + copy.id@ + "'"@)
                    },
                    Err(e) => next.says("Copy failed: "@ + e@),
                }
            },
        }
    }

    /// The pending copy was made, or failed (a description of why). `now` is the
    /// time in milliseconds; a clear window starts from it.
    pub fn finish_copy(&mut self, outcome: Result<(), String>, now: u64)
        requires
            now <= u64::MAX - 65_535_000,
        ensures
            old(self).copy_finished(*final(self), outcome, now),
            old(self).inv() ==> final(self).inv(),
    {
        let id = match &self.pending_copy {
            Some(copy) => copy.id.clone(),
            None => {
                return;
            },
        };
        self.pending_copy = None;
        match outcome {
            Ok(()) => {
                let secs: u16 = self.clipboard_clear_seconds;
                if secs > 0 {
                    self.copy_deadline = Some(now + secs as u64 * 1000);
                    let n = text::decimal_text(secs as u64);
                    self.message = Some(
                        text::join5("Copied '", id.as_str(), "' (clears in ", n.as_str(), "s)"),
                    );
                } else {
                    self.message = Some(text::join3("Copied '", id.as_str(), "'"));
                }
            },
            Err(e) => {
                self.message = Some(text::join2("Copy failed: ", e.as_str()));
            },
        }
    }

    /// What time-based work does at the time `now`; `clear` is whether the clipboard is to be
    /// cleared.
    pub open spec fn ticked(&self, next: Self, now: u64, clear: bool) -> bool {
        &&& clear == (self.copy_deadline matches Some(deadline) && now >= deadline)
        &&& clear ==> next == (App { copy_deadline: None, message: next.message, ..*self })
            && next.says("Clipboard cleared"@)
        &&& !clear ==> next == *self
    }

    /// Time-based work at the time `now` (in milliseconds). Returns whether the
    /// clipboard is to be cleared: once, when its deadline has come.
    pub fn on_tick(&mut self, now: u64) -> (clear: bool)
        ensures
            old(self).ticked(*final(self), now, clear),
            old(self).inv() ==> final(self).inv(),
    {
        match self.copy_deadline {
            Some(deadline) => {
                if now >= deadline {
                    self.copy_deadline = None;
                    self.message = Some("Clipboard cleared".to_owned());
                    true
                } else {
                    false
                }
            },
            None => false,
        }
    }

    /// What a request to show the selected password does.
    pub open spec fn show_requested(&self, next: Self) -> bool {
        match self.selection() {
            None => next == *self,
            Some(id) => {
                ||| {
                    &&& next == (App {
                        state: next.state,
                        shown_secret: next.shown_secret,
                        mode: Mode::ShowPassword { reveal: false },
                        message: None,
                        ..*self
                    })
                    &&& next.shown_secret matches Some(secret)
                        && self.store.contents().contains_key(id) && secret@
                        == self.store.contents()[id]
                    &&& next.state.selected matches Some(p) && p < self.items@.len() && item_ids(
                        self.items@,
                    )[p as int] == id && (forall|j: int|
                        0 <= j < p ==> #[trigger] item_ids(self.items@)[j] != id)
                }
                ||| exists|e: Error| #[trigger] self.load_failed(next, id, e)
            },
        }
    }

    /// Load the selected vault's password and enter `ShowPassword`, with the row
    /// of that vault selected.
    fn do_show(&mut self)
        ensures
            old(self).show_requested(*final(self)),
    {
        let id = match self.selected_owned() {
            Some(id) => id,
            None => {
                return;
            },
        };
        match self.store.get(id.as_str()) {
            Ok(secret) => {
                proof {
                    lemma_visible_are_items(
                        item_ids(self.items@),
                        self.search@,
                        self.state.selected->0 as int,
                    );
                }
                if let Some(p) = position(&self.items, id.as_str()) {
                    self.state = ListState { selected: Some(p) };
                }
                self.shown_secret = Some(secret);
                self.mode = Mode::ShowPassword { reveal: false };
                self.message = None;
            },
            Err(e) => {
                let cause = e.message();
                let mut message = text::join3("Failed to load '", id.as_str(), "': ");
                message.append(cause.as_str());
                self.message = Some(message);
                assert(old(self).load_failed(*self, old(self).selection()->0, e));
            },
        }
    }

    /// What a confirmed deletion does: whatever the store answers, the id leaves
    /// the index; the message shows a check mark only where the store deleted it.
    pub open spec fn deleted(&self, next: Self) -> bool {
        match self.selection() {
            None => next == *self,
            Some(id) => {
                &&& self.operated(next)
                &&& crate::vault::store::kept_elsewhere(
                    self.store.contents(),
                    next.store.contents(),
                    id,
                )
                &&& index_without(self.index, next.index, id)
                &&& self.list_reloaded(next)
                &&& {
                    ||| next.says("✓ Deleted '"@ + id + "'"@) && self.store.contents().contains_key(
                        id,
                    ) && next.store.contents() == self.store.contents().remove(id)
                    ||| next.says("Deleted '"@ + id + "'"@) && (self.store.reliable()
                        ==> !self.store.contents().contains_key(id) && next.store.contents()
                        == self.store.contents())
                }
            },
        }
    }

    /// Delete the selected vault, then reload the list.
    fn do_delete(&mut self)
        ensures
            old(self).store.reliable() ==> final(self).store.reliable(),
            old(self).deleted(*final(self)),
    {
        let id = match self.selected_owned() {
            Some(id) => id,
            None => {
                return;
            },
        };
        let store_ok = self.store.delete(id.as_str()).is_ok();
        self.index_remove(id.as_str());
        self.message = Some(
            if store_ok {
                text::join3("✓ Deleted '", id.as_str(), "'")
            } else {
                text::join3("Deleted '", id.as_str(), "'")
            },
        );
        self.reload_items();
        self.mode = Mode::Normal;
    }

    /// Add a vault-id to the index, where there is one that can be used.
    fn index_add(&mut self, id: &str)
        ensures
            *final(self) == (App { index: final(self).index, ..*old(self) }),
            index_with(old(self).index, final(self).index, id@),
    {
        match &mut self.index {
            Some(index) => {
                let _ = index.add(id);
            },
            None => {},
        }
    }

    /// Remove a vault-id from the index, where there is one that can be used.
    fn index_remove(&mut self, id: &str)
        ensures
            *final(self) == (App { index: final(self).index, ..*old(self) }),
            index_without(old(self).index, final(self).index, id@),
    {
        match &mut self.index {
            Some(index) => {
                let _ = index.remove(id);
            },
            None => {},
        }
    }

    // -- forms --------------------------------------------------------------
    /// What opening a form does: fresh empty fields, secret ones masked. A form
    /// about the selected vault does not open without one.
    pub open spec fn form_opened(&self, next: Self, kind: FormKind) -> bool {
        if kind != FormKind::Add && self.selection() is None {
            next == *self
        } else {
            &&& next == (App {
                form_fields: next.form_fields,
                mode: Mode::Form { kind, focus: 0 },
                ..*self
            })
            &&& next.form_fields@.len() == kind.fields()
            &&& forall|i: int|
                0 <= i < kind.fields() ==> {
                    &&& (#[trigger] next.form_fields@[i])@ == Seq::<char>::empty()
                    &&& next.form_fields@[i].at() == 0
                    &&& next.form_fields@[i].mask_char() == field_mask(kind, i)
                }
        }
    }

    /// Open a form of the given kind.
    fn open_form(&mut self, kind: FormKind)
        ensures
            old(self).form_opened(*final(self), kind),
    {
        if kind != FormKind::Add && self.selected_id().is_none() {
            return;
        }
        let mut fields: Vec<TextField> = Vec::new();
        let n: usize = kind.field_count();
        for i in 0..n
            invariant
                n == kind.fields(),
                fields@.len() == i,
                forall|j: int|
                    0 <= j < i ==> {
                        &&& (#[trigger] fields@[j])@ == Seq::<char>::empty()
                        &&& fields@[j].at() == 0
                        &&& fields@[j].mask_char() == field_mask(kind, j)
                    },
        {
            let mask = if kind.is_secret_field(i) {
                Some('•')
            } else {
                None
            };
            fields.push(TextField::new(mask));
        }
        self.form_fields = fields;
        self.mode = Mode::Form { kind, focus: 0 };
    }

    /// What submitting the add form does.
    pub open spec fn add_committed(&self, next: Self) -> bool {
        let id = field_text(self.form_fields@, 0);
        let password = field_text(self.form_fields@, 1);
        if id.len() == 0 {
            self.told(next, Mode::Normal, "✗ vault-id cannot be empty"@)
        } else if password != field_text(self.form_fields@, 2) {
            self.told(next, Mode::Normal, "✗ passwords do not match"@)
        } else {
            ||| {
                &&& self.operated(next)
                &&& next.store.contents() == self.store.contents().insert(id, password)
                &&& index_with(self.index, next.index, id)
                &&& next.says("✓ Added '"@ + id + "'"@)
                &&& self.list_reloaded(next)
            }
            ||| self.set_failed(next, id, "✗ Add failed: "@)
        }
    }

    /// What submitting the edit form does.
    pub open spec fn edit_committed(&self, next: Self) -> bool {
        let password = field_text(self.form_fields@, 0);
        match self.selection() {
            None => next == (App { mode: Mode::Normal, ..*self }),
            Some(id) => if password != field_text(self.form_fields@, 1) {
                self.told(next, Mode::Normal, "✗ passwords do not match"@)
            } else {
                ||| {
                    &&& next == (App {
                        store: next.store,
                        mode: Mode::Normal,
                        message: next.message,
                        ..*self
                    })
                    &&& next.store.contents() == self.store.contents().insert(id, password)
                    &&& next.says("✓ Updated '"@ + id + "'"@)
                }
                ||| self.set_failed(next, id, "✗ Edit failed: "@)
            },
        }
    }

    /// What submitting the rename form does: the password is stored under the
    /// new id, then the old id is deleted (what the store answers to that is
    /// ignored).
    pub open spec fn rename_committed(&self, next: Self) -> bool {
        let to = field_text(self.form_fields@, 0);
        match self.selection() {
            None => next == (App { mode: Mode::Normal, ..*self }),
            Some(from) => if to.len() == 0 {
                self.told(next, Mode::Normal, "✗ new id cannot be empty"@)
            } else {
                ||| self.moved(next, from, to)
                ||| self.set_failed(next, to, "✗ Rename failed: "@)
                ||| exists|e: Error|
                    next == (App { mode: Mode::Normal, message: next.message, ..*self })
                        && #[trigger] next.says("✗ Rename failed: "@ + e.text()) && read_failed(
                        self.store,
                        from,
                        e,
                    ) && (self.store.reliable() ==> !self.store.contents().contains_key(from))
            },
        }
    }

    /// The password of `from` is now that of `to`.
    pub open spec fn moved(&self, next: Self, from: Seq<char>, to: Seq<char>) -> bool {
        let contents = self.store.contents();
        &&& self.operated(next)
        &&& contents.contains_key(from)
        &&& crate::vault::store::kept_elsewhere(
            contents.insert(to, contents[from]),
            next.store.contents(),
            from,
        )
        &&& self.store.reliable() ==> next.store.contents() == contents.insert(
            to,
            contents[from],
        ).remove(from)
        &&& index_moved(self.index, next.index, from, to)
        &&& next.says("✓ Renamed '"@ + from + "' → '"@ + to + "'"@)
        &&& self.list_reloaded(next)
    }

    /// The store refused a write under `id`.
    pub open spec fn set_failed(&self, next: Self, id: Seq<char>, cause: Seq<char>) -> bool {
        &&& next == (App {
            store: next.store,
            mode: Mode::Normal,
            message: next.message,
            ..*self
        })
        &&& crate::vault::store::kept_elsewhere(self.store.contents(), next.store.contents(), id)
        &&& exists|e: Error| #[trigger]
            next.says(cause + e.text()) && self.store.fails_with(e)
        &&& !self.store.reliable()
    }

    /// Show what went wrong and leave the form.
    fn leave_with(&mut self, cause: &str, e: &Error)
        ensures
            *final(self) == (App {
                mode: Mode::Normal,
                message: final(self).message,
                ..*old(self)
            }),
            final(self).says(cause@ + e.text()),
    {
        let detail = e.message();
        self.message = Some(text::join2(cause, detail.as_str()));
        self.mode = Mode::Normal;
    }

    /// Submit the add form.
    fn commit_add(&mut self)
        ensures
            old(self).store.reliable() ==> final(self).store.reliable(),
            old(self).add_committed(*final(self)),
    {
        let id = self.field_value(0);
        let password = self.field_value(1);
        let confirmation = self.field_value(2);
        if id.as_str().is_empty() {
            self.message = Some("✗ vault-id cannot be empty".to_owned());
            self.mode = Mode::Normal;
            return;
        }
        if password != confirmation {
            self.message = Some("✗ passwords do not match".to_owned());
            self.mode = Mode::Normal;
            return;
        }
        let ghost before = *self;
        match self.store.set(id.as_str(), &VaultSecret::new(password)) {
            Ok(()) => {
                self.index_add(id.as_str());
                self.message = Some(text::join3("✓ Added '", id.as_str(), "'"));
                assert(self.selection() == before.selection());
                self.reload_items();
                self.mode = Mode::Normal;
            },
            Err(e) => {
                self.leave_with("✗ Add failed: ", &e);
                assert(self.says("✗ Add failed: "@ + e.text()));
            },
        }
    }

    /// Submit the edit form.
    fn commit_edit(&mut self)
        ensures
            old(self).store.reliable() ==> final(self).store.reliable(),
            old(self).edit_committed(*final(self)),
    {
        let id = match self.selected_owned() {
            Some(id) => id,
            None => {
                self.mode = Mode::Normal;
                return;
            },
        };
        let password = self.field_value(0);
        let confirmation = self.field_value(1);
        if password != confirmation {
            self.message = Some("✗ passwords do not match".to_owned());
            self.mode = Mode::Normal;
            return;
        }
        match self.store.set(id.as_str(), &VaultSecret::new(password)) {
            Ok(()) => {
                self.message = Some(text::join3("✓ Updated '", id.as_str(), "'"));
                self.mode = Mode::Normal;
            },
            Err(e) => {
                self.leave_with("✗ Edit failed: ", &e);
                assert(self.says("✗ Edit failed: "@ + e.text()));
            },
        }
    }

    /// Submit the rename form.
    fn commit_rename(&mut self)
        ensures
            old(self).store.reliable() ==> final(self).store.reliable(),
            old(self).rename_committed(*final(self)),
    {
        let from = match self.selected_owned() {
            Some(from) => from,
            None => {
                self.mode = Mode::Normal;
                return;
            },
        };
        let to = self.field_value(0);
        if to.as_str().is_empty() {
            self.message = Some("✗ new id cannot be empty".to_owned());
            self.mode = Mode::Normal;
            return;
        }
        let ghost before = *self;
        let secret = match self.store.get(from.as_str()) {
            Ok(secret) => secret,
            Err(e) => {
                self.leave_with("✗ Rename failed: ", &e);
                assert(self.says("✗ Rename failed: "@ + e.text()));
                return;
            },
        };
        match self.store.set(to.as_str(), &secret) {
            Ok(()) => {
                self.index_add(to.as_str());
                let _ = self.store.delete(from.as_str());
                self.index_remove(from.as_str());
                self.message = Some(
                    text::join5("✓ Renamed '", from.as_str(), "' → '", to.as_str(), "'"),
                );
                assert(self.selection() == before.selection());
                self.reload_items();
                self.mode = Mode::Normal;
            },
            Err(e) => {
                self.leave_with("✗ Rename failed: ", &e);
                assert(self.says("✗ Rename failed: "@ + e.text()));
            },
        }
    }

    /// What submitting a form does.
    pub open spec fn form_committed(&self, next: Self, kind: FormKind) -> bool {
        match kind {
            FormKind::Add => self.add_committed(next),
            FormKind::Edit => self.edit_committed(next),
            FormKind::Rename => self.rename_committed(next),
        }
    }

    /// Commit the active form: validate inputs, apply via store and index,
    /// reload.
    fn commit_form(&mut self, kind: FormKind)
        ensures
            old(self).store.reliable() ==> final(self).store.reliable(),
            old(self).form_committed(*final(self), kind),
    {
        match kind {
            FormKind::Add => self.commit_add(),
            FormKind::Edit => self.commit_edit(),
            FormKind::Rename => self.commit_rename(),
        }
    }
}

/// The index after a vault-id was renamed.
pub open spec fn index_moved(
    before: Option<VaultIndex>,
    after: Option<VaultIndex>,
    from: Seq<char>,
    to: Seq<char>,
) -> bool {
    match (before, after) {
        (None, None) => true,
        (Some(b), Some(a)) => if b.readable() {
            b.with_moved(from, to, a)
        } else {
            a == b
        },
        _ => false,
    }
}

/// A row that the search shows is one of the rows.
proof fn lemma_visible_are_items(ids: Seq<Seq<char>>, search: Seq<char>, i: int)
    requires
        0 <= i < visible(ids, search).len(),
    ensures
        ids.contains(visible(ids, search)[i]),
    decreases ids.len(),
{
    if ids.len() > 0 {
        let before = visible(ids.drop_last(), search);
        let found = visible(ids, search)[i];
        if i < before.len() {
            lemma_visible_are_items(ids.drop_last(), search, i);
            let j = ids.drop_last().index_of(found);
            assert(ids[j] == found);
        } else {
            assert(ids[ids.len() - 1] == found);
        }
    }
}

// ---------------------------------------------------------------------------
// Keys
// ---------------------------------------------------------------------------
impl<S: VaultStore> App<S> {
    /// What a step of the selection does.
    pub open spec fn selection_moved(&self, next: Self, down: bool) -> bool {
        let n = self.shown().len() as int;
        let from = match self.state.selected {
            Some(i) => i as int,
            None => 0,
        };
        if n == 0 {
            next == *self
        } else {
            next == (App {
                state: ListState { selected: Some(stepped(from, n, down) as usize) },
                ..*self
            })
        }
    }

    fn move_selection(&mut self, down: bool)
        ensures
            old(self).selection_moved(*final(self), down),
    {
        let n: usize = self.filtered_items().len();
        if n == 0 {
            return;
        }
        let from: usize = match self.state.selected {
            Some(i) => i,
            None => 0,
        };
        let to: usize = if down {
            if from >= n - 1 {
                0
            } else {
                from + 1
            }
        } else if from == 0 {
            n - 1
        } else if from - 1 >= n {
            0
        } else {
            from - 1
        };
        self.state = ListState { selected: Some(to) };
    }

    /// What a key does in normal mode.
    pub open spec fn normal_key(&self, next: Self, key: KeyEvent) -> bool {
        match key.code {
            KeyCode::Char('q') | KeyCode::Esc => next == (App { quit: true, ..*self }),
            KeyCode::Char('y') => self.copy_requested(next),
            KeyCode::Char('j') | KeyCode::Down => self.selection_moved(next, true),
            KeyCode::Char('k') | KeyCode::Up => self.selection_moved(next, false),
            KeyCode::Char('g') => next == (App {
                state: ListState { selected: Some(0usize) },
                ..*self
            }),
            KeyCode::Char('G') => if self.shown().len() > 0 {
                next == (App {
                    state: ListState { selected: Some((self.shown().len() - 1) as usize) },
                    ..*self
                })
            } else {
                next == *self
            },
            KeyCode::Enter => self.show_requested(next),
            KeyCode::Char('e') => self.form_opened(next, FormKind::Edit),
            KeyCode::Char('a') | KeyCode::Char('n') => self.form_opened(next, FormKind::Add),
            KeyCode::Char('d') => if self.selection() is Some {
                next == (App { mode: Mode::ConfirmDelete, ..*self })
            } else {
                next == *self
            },
            KeyCode::Char('r') => self.form_opened(next, FormKind::Rename),
            KeyCode::Char('/') => next == (App {
                mode: Mode::Search,
                search: next.search,
                ..*self
            }) && next.search@ == Seq::<char>::empty(),
            KeyCode::Char('s') => next == (App { mode: Mode::SyncMenu, ..*self }),
            KeyCode::Char('?') => next == (App { mode: Mode::Help, ..*self }),
            _ => next == *self,
        }
    }

    fn on_normal(&mut self, key: KeyEvent)
        ensures
            old(self).normal_key(*final(self), key),
    {
        match key.code {
            KeyCode::Char('q') | KeyCode::Esc => {
                self.quit = true;
            },
            KeyCode::Char('y') => self.do_copy(),
            KeyCode::Char('j') | KeyCode::Down => self.move_selection(true),
            KeyCode::Char('k') | KeyCode::Up => self.move_selection(false),
            KeyCode::Char('g') => {
                self.state = ListState { selected: Some(0) };
            },
            KeyCode::Char('G') => {
                let n: usize = self.filtered_items().len();
                if n > 0 {
                    self.state = ListState { selected: Some(n - 1) };
                }
            },
            KeyCode::Enter => self.do_show(),
            KeyCode::Char('e') => self.open_form(FormKind::Edit),
            KeyCode::Char('a') | KeyCode::Char('n') => self.open_form(FormKind::Add),
            KeyCode::Char('d') => {
                if self.selected_id().is_some() {
                    self.mode = Mode::ConfirmDelete;
                }
            },
            KeyCode::Char('r') => self.open_form(FormKind::Rename),
            KeyCode::Char('/') => {
                self.mode = Mode::Search;
                self.search = String::new();
            },
            KeyCode::Char('s') => {
                self.mode = Mode::SyncMenu;
            },
            KeyCode::Char('?') => {
                self.mode = Mode::Help;
            },
            _ => {},
        }
    }

    /// What a key does while searching.
    pub open spec fn search_key(&self, next: Self, key: KeyEvent) -> bool {
        match key.code {
            KeyCode::Esc => next == (App { mode: Mode::Normal, search: next.search, ..*self })
                && next.search@ == Seq::<char>::empty(),
            KeyCode::Enter => next == (App { mode: Mode::Normal, ..*self }),
            KeyCode::Backspace => next == (App { search: next.search, ..*self }) && next.search@
                == if self.search@.len() == 0 {
                self.search@
            } else {
                self.search@.drop_last()
            },
            KeyCode::Char(c) => if text::is_control_char(c) {
                next == *self
            } else {
                next == (App { search: next.search, ..*self }) && next.search@
                    == self.search@.push(c)
            },
            _ => next == *self,
        }
    }

    fn on_search(&mut self, key: KeyEvent)
        ensures
            old(self).search_key(*final(self), key),
    {
        match key.code {
            KeyCode::Esc => {
                self.search = String::new();
                self.mode = Mode::Normal;
            },
            KeyCode::Enter => {
                self.mode = Mode::Normal;
            },
            KeyCode::Backspace => {
                let _ = self.search.pop();
            },
            KeyCode::Char(c) => {
                if !text::control_char(c) {
                    self.search.push(c);
                }
            },
            _ => {},
        }
    }

    /// What a key does while a password is shown. Space flips between hidden and
    /// revealed; leaving drops the password.
    pub open spec fn show_key(&self, next: Self, key: KeyEvent) -> bool {
        match key.code {
            KeyCode::Char(' ') => next == (App {
                mode: Mode::ShowPassword { reveal: self.mode != (Mode::ShowPassword { reveal: true }) },
                ..*self
            }),
            KeyCode::Esc | KeyCode::Char('q') | KeyCode::Enter => next == (App {
                shown_secret: None,
                mode: Mode::Normal,
                ..*self
            }),
            KeyCode::Char('y') => self.copy_requested(next),
            _ => next == *self,
        }
    }

    fn on_show_password(&mut self, key: KeyEvent)
        ensures
            old(self).show_key(*final(self), key),
    {
        match key.code {
            KeyCode::Char(' ') => {
                let reveal = self.mode != (Mode::ShowPassword { reveal: true });
                self.mode = Mode::ShowPassword { reveal };
            },
            KeyCode::Esc | KeyCode::Char('q') | KeyCode::Enter => {
                self.shown_secret = None;
                self.mode = Mode::Normal;
            },
            KeyCode::Char('y') => self.do_copy(),
            _ => {},
        }
    }

    /// Only form field `at` may differ.
    pub open spec fn field_changed(&self, next: Self, at: int) -> bool {
        &&& next == (App { form_fields: next.form_fields, ..*self })
        &&& next.form_fields@.len() == self.form_fields@.len()
        &&& forall|i: int|
            0 <= i < next.form_fields@.len() && i != at ==> #[trigger] next.form_fields@[i]
                == self.form_fields@[i]
    }

    /// What a key does in a form. Enter on the last field submits; on earlier
    /// fields it advances. `g` generates a password where there is one to fill
    /// in. Every other key edits the field in focus.
    pub open spec fn form_key(
        &self,
        next: Self,
        key: KeyEvent,
        kind: FormKind,
        focus: usize,
    ) -> bool {
        match key.code {
            KeyCode::Esc => next == (App { mode: Mode::Normal, ..*self }),
            KeyCode::Tab => next == (App {
                mode: Mode::Form {
                    kind,
                    focus: field_after(focus as int, kind.fields()) as usize,
                },
                ..*self
            }),
            KeyCode::BackTab => next == (App {
                mode: Mode::Form {
                    kind,
                    focus: field_before(focus as int, kind.fields()) as usize,
                },
                ..*self
            }),
            KeyCode::Enter => if focus + 1 == kind.fields() {
                self.form_committed(next, kind)
            } else {
                next == (App { mode: Mode::Form { kind, focus: (focus + 1) as usize }, ..*self })
            },
            KeyCode::Char('g') => if kind.secret_at(focus as int) {
                &&& self.field_changed(next, focus as int)
                &&& next.form_fields@[focus as int]@.len() == password::DEFAULT_LENGTH
                &&& password::made_of(
                    next.form_fields@[focus as int]@,
                    password::alphabet(false),
                )
                &&& password::randomly_drawn(next.form_fields@[focus as int]@, false)
                &&& next.form_fields@[focus as int].at() == password::DEFAULT_LENGTH
                &&& next.form_fields@[focus as int].mask_char()
                    == self.form_fields@[focus as int].mask_char()
            } else {
                next == *self
            },
            _ => {
                let before = self.form_fields@[focus as int];
                let after = next.form_fields@[focus as int];
                let edit = crate::tui::input::edited(before@, before.at(), key);
                &&& self.field_changed(next, focus as int)
                &&& after@ == edit.text && after.at() == edit.cursor
                &&& after.mask_char() == before.mask_char()
            },
        }
    }

    fn on_form(&mut self, key: KeyEvent, kind: FormKind, focus: usize)
        requires
            old(self).inv(),
            old(self).mode == (Mode::Form { kind, focus }),
        ensures
            old(self).store.reliable() ==> final(self).store.reliable(),
            old(self).form_key(*final(self), key, kind, focus),
    {
        let n: usize = kind.field_count();
        match key.code {
            KeyCode::Esc => {
                self.mode = Mode::Normal;
            },
            KeyCode::Tab => {
                let next: usize = if focus + 1 == n {
                    0
                } else {
                    focus + 1
                };
                self.mode = Mode::Form { kind, focus: next };
            },
            KeyCode::BackTab => {
                let previous: usize = if focus == 0 {
                    n - 1
                } else {
                    focus - 1
                };
                self.mode = Mode::Form { kind, focus: previous };
            },
            KeyCode::Enter => {
                if focus + 1 == n {
                    self.commit_form(kind);
                } else {
                    self.mode = Mode::Form { kind, focus: focus + 1 };
                }
            },
            KeyCode::Char('g') => {
                if kind.is_secret_field(focus) {
                    if let Ok(secret) = password::generate(password::DEFAULT_LENGTH, false) {
                        self.form_fields[focus].replace(secret.as_str());
                    }
                }
            },
            _ => {
                self.form_fields[focus].input(key);
            },
        }
    }

    /// What a key does while a deletion is to be confirmed.
    pub open spec fn confirm_key(&self, next: Self, key: KeyEvent) -> bool {
        match key.code {
            KeyCode::Enter => self.deleted(next),
            KeyCode::Esc | KeyCode::Char('q') => next == (App { mode: Mode::Normal, ..*self }),
            _ => next == *self,
        }
    }

    fn on_confirm_delete(&mut self, key: KeyEvent)
        ensures
            old(self).store.reliable() ==> final(self).store.reliable(),
            old(self).confirm_key(*final(self), key),
    {
        match key.code {
            KeyCode::Enter => self.do_delete(),
            KeyCode::Esc | KeyCode::Char('q') => {
                self.mode = Mode::Normal;
            },
            _ => {},
        }
    }

    /// What a key does in the sync menu, which only says where to sync.
    pub open spec fn sync_key(&self, next: Self, key: KeyEvent) -> bool {
        match key.code {
            KeyCode::Esc | KeyCode::Char('q') => next == (App { mode: Mode::Normal, ..*self }),
            _ => self.told(
                next,
                self.mode,
                "Run `avpm sync push|pull|status` from the shell (passphrase prompt)."@,
            ),
        }
    }

    fn on_sync_menu(&mut self, key: KeyEvent)
        ensures
            old(self).sync_key(*final(self), key),
    {
        match key.code {
            KeyCode::Esc | KeyCode::Char('q') => {
                self.mode = Mode::Normal;
            },
            _ => {
                self.message = Some(
                    "Run `avpm sync push|pull|status` from the shell (passphrase prompt).".to_owned(),
                );
            },
        }
    }

    /// What a key does while the help is shown.
    pub open spec fn help_key(&self, next: Self, key: KeyEvent) -> bool {
        match key.code {
            KeyCode::Esc | KeyCode::Char('q') | KeyCode::Char('?') | KeyCode::Enter => next == (App {
                mode: Mode::Normal,
                ..*self
            }),
            _ => next == *self,
        }
    }

    fn on_help(&mut self, key: KeyEvent)
        ensures
            old(self).help_key(*final(self), key),
    {
        match key.code {
            KeyCode::Esc | KeyCode::Char('q') | KeyCode::Char('?') | KeyCode::Enter => {
                self.mode = Mode::Normal;
            },
            _ => {},
        }
    }

    /// What a key does, by mode.
    pub open spec fn pressed(&self, next: Self, key: KeyEvent) -> bool {
        match self.mode {
            Mode::Normal => self.normal_key(next, key),
            Mode::Search => self.search_key(next, key),
            Mode::ShowPassword { .. } => self.show_key(next, key),
            Mode::Form { kind, focus } => self.form_key(next, key, kind, focus),
            Mode::ConfirmDelete => self.confirm_key(next, key),
            Mode::SyncMenu => self.sync_key(next, key),
            Mode::Help => self.help_key(next, key),
        }
    }

    /// Drive the state machine with a key event.
    pub fn handle_event(&mut self, key: Option<KeyEvent>) -> (r: EventResult)
        requires
            old(self).inv(),
        ensures
            old(self).store.reliable() ==> final(self).store.reliable(),
            final(self).inv(),
            match key {
                None => *final(self) == *old(self) && r == EventResult::Continue,
                Some(k) => old(self).pressed(*final(self), k) && r == if final(self).quit {
                    EventResult::Quit
                } else {
                    EventResult::Continue
                },
            },
    {
        let key = match key {
            Some(key) => key,
            None => {
                return EventResult::Continue;
            },
        };
        match self.mode {
            Mode::Normal => self.on_normal(key),
            Mode::Search => self.on_search(key),
            Mode::ShowPassword { .. } => self.on_show_password(key),
            Mode::Form { kind, focus } => self.on_form(key, kind, focus),
            Mode::ConfirmDelete => self.on_confirm_delete(key),
            Mode::SyncMenu => self.on_sync_menu(key),
            Mode::Help => self.on_help(key),
        }
        if self.quit {
            EventResult::Quit
        } else {
            EventResult::Continue
        }
    }
}

/// The field that Tab leads to, among `n`.
pub open spec fn field_after(focus: int, n: int) -> int {
    if focus + 1 == n {
        0
    } else {
        focus + 1
    }
}

/// The field that BackTab leads to, among `n`.
pub open spec fn field_before(focus: int, n: int) -> int {
    if focus == 0 {
        n - 1
    } else {
        focus - 1
    }
}

// ---------------------------------------------------------------------------
// Laws
// ---------------------------------------------------------------------------
/// Tab and BackTab take each other back, from every field, and never leave the
/// form.
pub proof fn tab_and_back_tab_undo_each_other(focus: int, n: int)
    requires
        0 <= focus < n,
    ensures
        field_after(focus, n) == (focus + 1) % n,
        field_before(focus, n) == (focus + n - 1) % n,
        field_before(field_after(focus, n), n) == focus,
        field_after(field_before(focus, n), n) == focus,
        0 <= field_after(focus, n) < n,
        0 <= field_before(focus, n) < n,
{
    if focus + 1 == n {
        vstd::arithmetic::div_mod::lemma_mod_self_0(n);
    } else {
        vstd::arithmetic::div_mod::lemma_small_mod((focus + 1) as nat, n as nat);
    }
    if focus == 0 {
        vstd::arithmetic::div_mod::lemma_small_mod((n - 1) as nat, n as nat);
    } else {
        vstd::arithmetic::div_mod::lemma_small_mod((focus - 1) as nat, n as nat);
        vstd::arithmetic::div_mod::lemma_mod_add_multiples_vanish(focus - 1, n);
    }
}

/// Moving about a form loses nothing: Tab, BackTab, Enter on a field before the
/// last, and Esc leave every field, the store and the index as they are. While the
/// form is open the focus is on one of its fields.
pub proof fn moving_about_a_form_keeps_it<S: VaultStore>(
    app: App<S>,
    next: App<S>,
    key: KeyEvent,
    kind: FormKind,
    focus: usize,
)
    requires
        app.inv(),
        app.mode == (Mode::Form { kind, focus }),
        app.pressed(next, key),
        key.code == KeyCode::Tab || key.code == KeyCode::BackTab || key.code == KeyCode::Esc || (
        key.code == KeyCode::Enter && focus + 1 < kind.fields()),
    ensures
        next.form_fields == app.form_fields,
        next.store == app.store,
        next.index == app.index,
        next.quit == app.quit,
        next.mode == match key.code {
            KeyCode::Esc => Mode::Normal,
            KeyCode::Tab => Mode::Form {
                kind,
                focus: field_after(focus as int, kind.fields()) as usize,
            },
            KeyCode::BackTab => Mode::Form {
                kind,
                focus: field_before(focus as int, kind.fields()) as usize,
            },
            _ => Mode::Form { kind, focus: (focus + 1) as usize },
        },
        next.mode matches Mode::Form { kind: k, focus: f } ==> f < k.fields(),
{
}

/// A secret never reaches the screen: in every state a secret field of a form
/// shows nothing of its text but the length.
pub proof fn secret_fields_are_masked<S: VaultStore>(
    app: App<S>,
    kind: FormKind,
    focus: usize,
    i: int,
)
    requires
        app.inv(),
        app.mode == (Mode::Form { kind, focus }),
        0 <= i < kind.fields(),
        kind.secret_at(i),
    ensures
        crate::tui::input::displayed(
            app.form_fields@[i]@,
            app.form_fields@[i].mask_char(),
        ) == text::repeated('•', app.form_fields@[i]@.len()),
{
    assert(app.form_fields@[i].mask_char() == field_mask(kind, i));
}

/// Looking around changes nothing that is stored: outside a form and the
/// confirmation of a deletion no key touches the store or the index.
pub proof fn browsing_stores_nothing<S: VaultStore>(app: App<S>, next: App<S>, key: KeyEvent)
    requires
        app.pressed(next, key),
        !(app.mode is Form),
        !(app.mode is ConfirmDelete),
    ensures
        next.store == app.store,
        next.index == app.index,
{
}

/// In a form and in the confirmation of a deletion, nothing but Enter touches
/// the store or the index.
pub proof fn only_enter_stores<S: VaultStore>(app: App<S>, next: App<S>, key: KeyEvent)
    requires
        app.pressed(next, key),
        key.code != KeyCode::Enter,
    ensures
        next.store == app.store,
        next.index == app.index,
{
}

/// The password that is shown is the one that the store holds for the selected
/// vault-id.
pub proof fn shown_password_is_the_selected_one<S: VaultStore>(app: App<S>, next: App<S>)
    requires
        app.inv(),
        app.mode is Normal,
        app.pressed(next, (KeyEvent { code: KeyCode::Enter, control: false, alt: false })),
        next.mode is ShowPassword,
    ensures
        app.selection() is Some,
        app.store.contents().contains_key(app.selection()->0),
        next.shown_secret matches Some(secret) && secret@ == app.store.contents()[app.selection()->0],
{
}

/// The list shows what is there: where nothing can make the store fail, the rows are
/// exactly the indexed ids that it holds.
proof fn lemma_rows_are_what_is_stored<S: VaultStore>(
    rows: Seq<Seq<char>>,
    store: S,
    indexed: Set<Seq<char>>,
    id: Seq<char>,
)
    requires
        lists(rows, store, indexed),
        store.reliable(),
    ensures
        rows.contains(id) <==> indexed.contains(id) && store.contents().contains_key(id),
{
}

/// A loaded application lists what is there, in ascending order, with the first row
/// selected.
pub proof fn loaded_list_is_what_is_stored<S: VaultStore>(
    store: S,
    index: VaultIndex,
    clipboard_clear_seconds: u16,
    r: Result<App<S>, Error>,
    id: Seq<char>,
)
    requires
        call_ensures(App::<S>::load, (store, index, clipboard_clear_seconds), r),
        store.reliable(),
    ensures
        r is Ok <==> index.readable(),
        r matches Ok(app) ==> {
            &&& item_ids(app.items@).contains(id) <==> index.ids().contains(id)
                && store.contents().contains_key(id)
            &&& text::strictly_sorted(item_ids(app.items@))
            &&& app.items@.len() > 0 ==> app.state.selected == Some(0usize)
            &&& app.mode == Mode::Normal && app.store == store && app.index == Some(index)
        },
{
    if let Ok(app) = r {
        lemma_rows_are_what_is_stored(item_ids(app.items@), store, index.ids(), id);
    }
}

/// A copy takes the password of the selected vault-id as the store holds it, and changes
/// nothing else.
pub proof fn copied_password_is_the_selected_one<S: VaultStore>(
    app: App<S>,
    next: App<S>,
    key: KeyEvent,
    id: Seq<char>,
)
    requires
        app.pressed(next, key),
        key.code == KeyCode::Char('y'),
        app.mode is Normal || app.mode is ShowPassword,
        app.selection() == Some(id),
        app.store.reliable(),
        app.store.contents().contains_key(id),
    ensures
        next.pending_copy matches Some(copy) && copy.id@ == id && copy.secret@
            == app.store.contents()[id],
        next.store == app.store && next.index == app.index && next.mode == app.mode,
        next.items == app.items && next.state == app.state,
{
}

/// A copy that was made is cleared after the configured window, and only where there is
/// one; a copy that failed starts none. The password is held no longer either way.
pub proof fn copy_is_cleared_after_its_window<S: VaultStore>(
    app: App<S>,
    next: App<S>,
    outcome: Result<(), String>,
    now: u64,
)
    requires
        app.copy_finished(next, outcome, now),
        app.pending_copy is Some,
        now <= u64::MAX - 65_535_000,
    ensures
        next.pending_copy is None,
        outcome is Ok && app.clipboard_clear_seconds > 0 ==> (next.copy_deadline matches Some(at)
            && at == now + app.clipboard_clear_seconds * 1000),
        outcome is Err || app.clipboard_clear_seconds == 0 ==> next.copy_deadline
            == app.copy_deadline,
        outcome matches Err(cause) ==> (next.message matches Some(m) && text::ends(m@, cause@)),
        outcome is Ok ==> (next.message matches Some(m) && text::occurs_in(
            m@,
            app.pending_copy->0.id@,
        )),
        next.store == app.store && next.index == app.index,
{
    let id = app.pending_copy->0.id@;
    if let Err(cause) = outcome {
        text::ends_split_the_text("Copy failed: "@ + cause@, cause@);
    } else if app.clipboard_clear_seconds > 0 {
        let n = text::decimal(app.clipboard_clear_seconds as nat);
        let tail = "' (clears in "@ + n + "s)"@;
        assert(next.message->0@ =~= "Copied '"@ + id + tail);
        text::part_occurs("Copied '"@, id, tail);
    } else {
        text::part_occurs("Copied '"@, id, "'"@);
    }
}

/// The clipboard is cleared once its time has come and not before: after a copy at `now` with
/// a window of so many seconds, a tick clears it exactly where that time has passed, and
/// after that no tick clears it again.
pub proof fn clipboard_is_cleared_once_in_time<S: VaultStore>(
    app: App<S>,
    copied: App<S>,
    now: u64,
    ticked: App<S>,
    then: u64,
    clear: bool,
    later: App<S>,
    last: u64,
    again: bool,
)
    requires
        app.copy_finished(copied, Ok(()), now),
        app.pending_copy is Some,
        app.clipboard_clear_seconds > 0,
        now <= u64::MAX - 65_535_000,
        copied.ticked(ticked, then, clear),
        ticked.ticked(later, last, again),
    ensures
        clear <==> then >= now + app.clipboard_clear_seconds * 1000,
        clear ==> !again && ticked.copy_deadline is None,
        !clear ==> ticked == copied,
        ticked.store == app.store && ticked.index == app.index,
{
}

/// Typing in a form goes into the field in focus and into no other; `g` fills a secret field
/// with a generated password of thirty-two characters.
pub proof fn typing_goes_into_the_focused_field<S: VaultStore>(
    app: App<S>,
    next: App<S>,
    key: KeyEvent,
    kind: FormKind,
    focus: usize,
    i: int,
)
    requires
        app.inv(),
        app.mode == (Mode::Form { kind, focus }),
        app.pressed(next, key),
        0 <= app.form_fields@[focus as int].at() <= app.form_fields@[focus as int]@.len(),
        0 <= i < kind.fields(),
        i != focus,
    ensures
        key.code is Char || key.code == KeyCode::Backspace ==> {
            &&& next.form_fields@[i] == app.form_fields@[i]
            &&& next.mode == app.mode
        },
        key.code matches KeyCode::Char(c) ==> (c != 'g' && !key.control && !key.alt && (32 <= (
        c as int) < 127 || 160 <= (c as int)) ==> {
            let before = app.form_fields@[focus as int]@;
            let at = app.form_fields@[focus as int].at();
            next.form_fields@[focus as int]@ == before.take(at) + seq![c] + before.skip(at)
        }),
        key.code == KeyCode::Char('g') && kind.secret_at(focus as int) ==> {
            &&& next.form_fields@[focus as int]@.len() == 32
            &&& password::randomly_drawn(next.form_fields@[focus as int]@, false)
        },
{
    let before = app.form_fields@[focus as int];
    crate::tui::input::keys_edit_at_the_cursor(before@, before.at(), key);
}

/// A password that the store holds is shown, hidden at first, and its row is the selected
/// one.
pub proof fn held_password_is_shown_hidden<S: VaultStore>(
    app: App<S>,
    next: App<S>,
    key: KeyEvent,
    id: Seq<char>,
)
    requires
        app.mode is Normal,
        key.code == KeyCode::Enter,
        app.pressed(next, key),
        app.selection() == Some(id),
        app.store.reliable(),
        app.store.contents().contains_key(id),
    ensures
        next.mode == (Mode::ShowPassword { reveal: false }),
        next.shown_secret matches Some(secret) && secret@ == app.store.contents()[id],
        next.state.selected matches Some(row) && row < app.items@.len() && app.items@[row as int].id@
            == id,
{
}

/// After a reload the same vault-id is selected where it is still listed, else the first
/// row, and none where there is no row.
pub proof fn selection_survives_a_reload<S: VaultStore>(
    app: App<S>,
    next: App<S>,
    index: VaultIndex,
)
    requires
        app.list_reloaded(next),
        next.index == Some(index) && index.readable(),
    ensures
        ({
            let rows = item_ids(next.items@);
            match next.state.selected {
                Some(row) => {
                    &&& row < rows.len()
                    &&& app.selection() matches Some(id) ==> (rows.contains(id) ==> rows[row as int]
                        == id)
                    &&& app.selection() is None || !rows.contains(app.selection()->0) ==> row == 0
                },
                None => rows.len() == 0,
            }
        }),
{
}

/// The popups close on Esc and `q`, the help on `?` and Enter too; else the help stays and the
/// sync popup says where to sync.
pub proof fn popups_close<S: VaultStore>(app: App<S>, next: App<S>, key: KeyEvent)
    requires
        app.mode is SyncMenu || app.mode is Help || app.mode is ConfirmDelete,
        app.pressed(next, key),
    ensures
        key.code == KeyCode::Esc || key.code == KeyCode::Char('q') ==> next.mode == Mode::Normal,
        app.mode is Help && (key.code == KeyCode::Char('?') || key.code == KeyCode::Enter)
            ==> next.mode == Mode::Normal,
        app.mode is SyncMenu && key.code != KeyCode::Esc && key.code != KeyCode::Char('q')
            ==> next.mode == app.mode && next.message is Some,
        next.quit == app.quit,
{
}

/// A confirmed deletion takes the selected vault-id, and that alone, out of the store, the
/// index and the list; any other key leaves all three as they are.
pub proof fn confirmed_deletion_takes_the_selected_one<S: VaultStore>(
    app: App<S>,
    next: App<S>,
    key: KeyEvent,
    index0: VaultIndex,
    id: Seq<char>,
    other: Seq<char>,
)
    requires
        app.pressed(next, key),
        app.mode is ConfirmDelete,
        app.selection() == Some(id),
        app.store.reliable() && next.store.reliable(),
        app.index == Some(index0) && index0.readable(),
        other != id,
    ensures
        key.code == KeyCode::Enter ==> {
            &&& !next.store.contents().contains_key(id)
            &&& next.index matches Some(index1) && !index1.ids().contains(id)
                && index1.ids().contains(other) == index0.ids().contains(other)
            &&& !item_ids(next.items@).contains(id)
            &&& next.store.contents().contains_key(other) == app.store.contents().contains_key(
                other,
            )
            &&& app.store.contents().contains_key(other) ==> next.store.contents()[other]
                == app.store.contents()[other]
            &&& next.mode == Mode::Normal
        },
        key.code != KeyCode::Enter ==> next.store == app.store && next.index == app.index
            && next.items == app.items,
{
    if key.code == KeyCode::Enter {
        let index1 = next.index->0;
        crate::index::removed_id_is_not_listed(index0, index1, id, id);
        crate::index::removed_id_is_not_listed(index0, index1, id, other);
        lemma_rows_are_what_is_stored(item_ids(next.items@), next.store, index1.ids(), id);
        crate::vault::store::other_ids_are_untouched(
            app.store.contents(),
            next.store.contents(),
            id,
            other,
        );
    }
}

/// A submitted add form stores the typed password under the typed id, indexes it and lists
/// it, where there is an id and both passwords are the same; else it stores nothing.
pub proof fn add_form_stores_what_was_typed<S: VaultStore>(
    app: App<S>,
    next: App<S>,
    key: KeyEvent,
    index0: VaultIndex,
    other: Seq<char>,
)
    requires
        app.inv(),
        app.mode == (Mode::Form { kind: FormKind::Add, focus: 2 }),
        key.code == KeyCode::Enter,
        app.pressed(next, key),
        app.store.reliable() && next.store.reliable(),
        app.index == Some(index0) && index0.readable(),
        other != app.form_fields@[0]@,
    ensures
        ({
            let id = app.form_fields@[0]@;
            let typed = app.form_fields@[1]@;
            if id.len() > 0 && typed == app.form_fields@[2]@ {
                &&& next.store.contents().contains_key(id) && next.store.contents()[id] == typed
                &&& next.index matches Some(index1) && index1.ids().contains(id)
                    && index1.ids().contains(other) == index0.ids().contains(other)
                &&& item_ids(next.items@).contains(id)
                &&& next.store.contents().contains_key(other) == app.store.contents().contains_key(
                    other,
                )
                &&& app.store.contents().contains_key(other) ==> next.store.contents()[other]
                    == app.store.contents()[other]
            } else {
                next.store == app.store && next.index == app.index && next.items == app.items
            }
        }),
        next.mode == Mode::Normal,
{
    let id = app.form_fields@[0]@;
    if id.len() > 0 && app.form_fields@[1]@ == app.form_fields@[2]@ {
        let index1 = next.index->0;
        crate::index::added_id_is_listed(index0, index1, id, id);
        crate::index::added_id_is_listed(index0, index1, id, other);
        lemma_rows_are_what_is_stored(item_ids(next.items@), next.store, index1.ids(), id);
    }
}

/// A submitted edit form stores the typed password under the selected id, and that alone,
/// where both passwords are the same; else it stores nothing. The index stays as it is.
pub proof fn edit_form_stores_what_was_typed<S: VaultStore>(
    app: App<S>,
    next: App<S>,
    key: KeyEvent,
    id: Seq<char>,
    other: Seq<char>,
)
    requires
        app.inv(),
        app.mode == (Mode::Form { kind: FormKind::Edit, focus: 1 }),
        key.code == KeyCode::Enter,
        app.pressed(next, key),
        app.store.reliable(),
        app.selection() == Some(id),
        other != id,
    ensures
        ({
            let typed = app.form_fields@[0]@;
            if typed == app.form_fields@[1]@ {
                &&& next.store.contents().contains_key(id) && next.store.contents()[id] == typed
                &&& next.store.contents().contains_key(other) == app.store.contents().contains_key(
                    other,
                )
                &&& app.store.contents().contains_key(other) ==> next.store.contents()[other]
                    == app.store.contents()[other]
            } else {
                next.store == app.store
            }
        }),
        next.index == app.index && next.items == app.items,
        next.mode == Mode::Normal,
{
}

/// A submitted rename form moves the password of the selected id to the typed one, in the
/// store, the index and the list, where one was typed; else it changes nothing.
pub proof fn rename_form_moves_the_selected_one<S: VaultStore>(
    app: App<S>,
    next: App<S>,
    key: KeyEvent,
    index0: VaultIndex,
    from: Seq<char>,
)
    requires
        app.inv(),
        app.mode == (Mode::Form { kind: FormKind::Rename, focus: 0 }),
        key.code == KeyCode::Enter,
        app.pressed(next, key),
        app.store.reliable() && next.store.reliable(),
        app.selection() == Some(from),
        app.store.contents().contains_key(from),
        app.index == Some(index0) && index0.readable(),
        app.form_fields@[0]@ != from,
    ensures
        ({
            let to = app.form_fields@[0]@;
            if to.len() > 0 {
                &&& next.store.contents().contains_key(to) && next.store.contents()[to]
                    == app.store.contents()[from]
                &&& !next.store.contents().contains_key(from)
                &&& next.index matches Some(index1) && index1.ids().contains(to)
                    && !index1.ids().contains(from)
                &&& item_ids(next.items@).contains(to) && !item_ids(next.items@).contains(from)
            } else {
                next.store == app.store && next.index == app.index && next.items == app.items
            }
        }),
        next.mode == Mode::Normal,
{
    let to = app.form_fields@[0]@;
    if to.len() > 0 {
        let index1 = next.index->0;
        lemma_rows_are_what_is_stored(item_ids(next.items@), next.store, index1.ids(), to);
        lemma_rows_are_what_is_stored(item_ids(next.items@), next.store, index1.ids(), from);
    }
}

/// Space flips between hidden and revealed; leaving the view forgets the password.
pub proof fn shown_password_is_forgotten<S: VaultStore>(
    app: App<S>,
    next: App<S>,
    key: KeyEvent,
    reveal: bool,
)
    requires
        app.mode == (Mode::ShowPassword { reveal }),
        app.pressed(next, key),
    ensures
        key.code == KeyCode::Char(' ') ==> next.mode == (Mode::ShowPassword { reveal: !reveal })
            && next.shown_secret == app.shown_secret,
        key.code == KeyCode::Esc || key.code == KeyCode::Enter || key.code == KeyCode::Char('q')
            ==> next.mode == Mode::Normal && next.shown_secret is None,
{
}

/// A search is typed character by character and taken back the same way; Enter keeps it,
/// Esc clears it, and both end the typing. Nothing else of the application changes.
pub proof fn search_is_what_was_typed<S: VaultStore>(
    app: App<S>,
    next: App<S>,
    key: KeyEvent,
)
    requires
        app.mode is Search,
        app.pressed(next, key),
    ensures
        key.code matches KeyCode::Char(c) ==> (32 <= (c as int) < 127 || 160 <= (c as int)
            ==> next.search@ == app.search@.push(c) && next.mode is Search),
        key.code == KeyCode::Backspace && app.search@.len() > 0 ==> next.search@
            == app.search@.take(app.search@.len() - 1) && next.mode is Search,
        key.code == KeyCode::Enter ==> next.search == app.search && next.mode == Mode::Normal,
        key.code == KeyCode::Esc ==> next.search@.len() == 0 && next.mode == Mode::Normal,
        next.items == app.items && next.state == app.state && next.quit == app.quit,
{
    if app.search@.len() > 0 {
        assert(app.search@.drop_last() =~= app.search@.take(app.search@.len() - 1));
    }
}

/// The keys of the list lead where they say: the forms, the search, the help and the
/// confirmation of a deletion open, the selection goes to the first and the last row, and
/// the application quits.
pub proof fn list_keys_lead_where_they_say<S: VaultStore>(
    app: App<S>,
    next: App<S>,
    key: KeyEvent,
)
    requires
        app.mode is Normal,
        app.pressed(next, key),
        app.selection() is Some,
        app.shown().len() <= usize::MAX,
    ensures
        key.code == KeyCode::Char('q') || key.code == KeyCode::Esc ==> next.quit,
        key.code == KeyCode::Char('a') || key.code == KeyCode::Char('n') ==> next.mode == (
        Mode::Form { kind: FormKind::Add, focus: 0 }),
        key.code == KeyCode::Char('e') ==> next.mode == (Mode::Form {
            kind: FormKind::Edit,
            focus: 0,
        }),
        key.code == KeyCode::Char('r') ==> next.mode == (Mode::Form {
            kind: FormKind::Rename,
            focus: 0,
        }),
        key.code == KeyCode::Char('d') ==> next.mode == Mode::ConfirmDelete,
        key.code == KeyCode::Char('/') ==> next.mode == Mode::Search && next.search@.len() == 0,
        key.code == KeyCode::Char('s') ==> next.mode == Mode::SyncMenu,
        key.code == KeyCode::Char('?') ==> next.mode == Mode::Help,
        key.code == KeyCode::Char('g') ==> next.state.selected == Some(0usize),
        next.mode is Form ==> forall|i: int|
            0 <= i < next.form_fields@.len() ==> (#[trigger] next.form_fields@[i])@.len() == 0,
        key.code == KeyCode::Char('G') ==> (next.state.selected matches Some(row) && row + 1
            == app.shown().len()),
        key.code == KeyCode::Char('j') || key.code == KeyCode::Down ==> (
        next.state.selected matches Some(row) && row == (app.state.selected->0 + 1)
            % app.shown().len() as int),
        key.code == KeyCode::Char('k') || key.code == KeyCode::Up ==> (
        next.state.selected matches Some(row) && row == (app.state.selected->0 + app.shown().len()
            - 1) % app.shown().len() as int),
        key.code == KeyCode::Char('j') || key.code == KeyCode::Char('k') ==> next.mode == app.mode
            && next.items == app.items,
{
    steps_go_round(app.state.selected->0 as int, app.shown().len() as int);
}

/// A rename keeps the password: where the new id differs from the old one, the
/// store holds under the new id what it held under the old one, and every third
/// id is as before.
pub proof fn rename_keeps_the_password<S: VaultStore>(
    app: App<S>,
    next: App<S>,
    from: Seq<char>,
    to: Seq<char>,
    other: Seq<char>,
)
    requires
        app.moved(next, from, to),
        from != to,
        other != from,
        other != to,
    ensures
        next.store.contents().contains_key(to),
        next.store.contents()[to] == app.store.contents()[from],
        next.store.contents().contains_key(other) == app.store.contents().contains_key(other),
        app.store.contents().contains_key(other) ==> next.store.contents()[other]
            == app.store.contents()[other],
{
    let written = app.store.contents().insert(to, app.store.contents()[from]);
    crate::vault::store::other_ids_are_untouched(written, next.store.contents(), from, to);
    crate::vault::store::other_ids_are_untouched(written, next.store.contents(), from, other);
}

} // verus!
