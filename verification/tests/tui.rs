use avpm::index::{IndexContents, VaultIndex};
use avpm::tui::event::{EventResult, KeyCode, KeyEvent};
use avpm::tui::input::TextField;
use avpm::tui::ui::{
    centered_margin, contextual_hints, delete_question, form_view, help_lines, password_view,
    search_line, status_line, sync_lines, title_text,
};
use avpm::tui::{App, FormKind, Mode};
use avpm::vault::mock::MockStore;
use avpm::vault::{VaultSecret, VaultStore};
use avpm::Error;

fn key(c: char) -> KeyEvent {
    KeyEvent::plain(KeyCode::Char(c))
}

fn press(code: KeyCode) -> Option<KeyEvent> {
    Some(KeyEvent::plain(code))
}

fn type_text(app: &mut App<MockStore>, text: &str) {
    for c in text.chars() {
        app.handle_event(Some(key(c)));
    }
}

fn setup(ids: &[&str]) -> App<MockStore> {
    setup_clearing(ids, 0)
}

fn setup_clearing(ids: &[&str], seconds: u16) -> App<MockStore> {
    let mut idx = VaultIndex::new("/data/index.json".into());
    let mut store = MockStore::new();
    for id in ids {
        store.seed(id, "secret-x");
        idx.add(id).unwrap();
    }
    App::load(store, idx, seconds).ok().unwrap()
}

fn indexed(app: &App<MockStore>) -> Vec<String> {
    app.index.as_ref().unwrap().list().unwrap()
}

/// What the views put on the screen, as one text.
fn render_string(app: &App<MockStore>) -> String {
    let mut out = title_text(app);
    for item in app.filtered_items() {
        out.push_str(&item.id);
    }
    match app.mode {
        Mode::Form { kind, focus } => {
            let view = form_view(kind, focus, app.form_fields());
            out.push_str(&view.title);
            for field in &view.fields {
                out.push_str(field.label);
                out.push_str(&field.display);
            }
        }
        Mode::Help => {
            for line in help_lines() {
                out.push_str(line);
            }
        }
        Mode::ShowPassword { reveal } => {
            let view = password_view(app, reveal);
            out.push_str(&view.heading);
            out.push_str(&view.display);
            out.push_str(&view.hint);
        }
        _ => {}
    }
    out.push_str(&contextual_hints(&app.mode));
    out.push_str(&status_line(app));
    out
}

/// Count mask dots (U+2022) in a rendered string.
fn mask_dot_count(rendered: &str) -> usize {
    rendered.chars().filter(|&c| c == '\u{2022}').count()
}

/// Whether the field with `label` is the emphasized one.
fn label_is_focused(app: &App<MockStore>, label: &str) -> bool {
    match app.mode {
        Mode::Form { kind, focus } => form_view(kind, focus, app.form_fields())
            .fields
            .iter()
            .any(|field| field.label == label && field.focused),
        _ => panic!("expected a form"),
    }
}

#[test]
fn loads_items_sorted() {
    let app = setup(&["prod", "dev"]);
    assert_eq!(app.items[0].id, "dev");
    assert_eq!(app.items[1].id, "prod");
    assert_eq!(app.state.selected(), Some(0));
}

#[test]
fn j_k_moves_selection() {
    let mut app = setup(&["dev", "prod", "staging"]);
    app.handle_event(Some(key('j')));
    assert_eq!(app.state.selected(), Some(1));
    app.handle_event(Some(key('k')));
    assert_eq!(app.state.selected(), Some(0));
}

#[test]
fn copy_writes_to_store_and_sets_message() {
    let mut app = setup(&["dev"]);
    app.handle_event(Some(key('y')));
    let copy = app.pending_copy.as_ref().unwrap();
    assert_eq!(copy.secret.as_str(), "secret-x");
    // On a headless box the clipboard is unavailable.
    app.finish_copy(Err("no clipboard".into()), 0);
    assert!(app.message.is_some(), "copy should produce a message");
}

#[test]
fn show_loads_secret_and_enters_show_password() {
    let mut app = setup(&["dev"]);
    app.handle_event(press(KeyCode::Enter));
    assert!(matches!(app.mode, Mode::ShowPassword { reveal: false }));
    assert!(app.shown_secret.is_some());
}

#[test]
fn space_toggles_reveal_on_press() {
    let mut app = setup(&["dev"]);
    // Enter to show.
    app.handle_event(press(KeyCode::Enter));
    // Space toggles reveal on.
    app.handle_event(press(KeyCode::Char(' ')));
    assert!(matches!(app.mode, Mode::ShowPassword { reveal: true }));
    // Space toggles reveal off.
    app.handle_event(press(KeyCode::Char(' ')));
    assert!(matches!(app.mode, Mode::ShowPassword { reveal: false }));
}

#[test]
fn esc_exits_show_password() {
    let mut app = setup(&["dev"]);
    app.handle_event(press(KeyCode::Enter));
    app.handle_event(press(KeyCode::Esc));
    assert_eq!(app.mode, Mode::Normal);
    assert!(app.shown_secret.is_none());
}

#[test]
fn delete_removes_from_store_and_index() {
    let mut app = setup(&["dev", "prod"]);
    // d enters confirm, Enter confirms.
    app.handle_event(Some(key('d')));
    assert_eq!(app.mode, Mode::ConfirmDelete);
    app.handle_event(press(KeyCode::Enter));
    assert_eq!(app.mode, Mode::Normal);
    // 'dev' (selected) should be gone from both store and index.
    assert!(app.store.get("dev").is_err());
    assert!(!indexed(&app).contains(&"dev".to_string()));
    // prod survives.
    assert!(app.store.get("prod").is_ok());
}

#[test]
fn delete_esc_cancels() {
    let mut app = setup(&["dev"]);
    app.handle_event(Some(key('d')));
    app.handle_event(press(KeyCode::Esc));
    assert_eq!(app.mode, Mode::Normal);
    assert!(app.store.get("dev").is_ok());
}

#[test]
fn open_add_form_has_three_fields() {
    let mut app = setup(&[]);
    app.handle_event(Some(key('a')));
    assert!(matches!(
        app.mode,
        Mode::Form {
            kind: FormKind::Add,
            ..
        }
    ));
    assert_eq!(app.form_fields.len(), 3);
}

#[test]
fn open_edit_form_has_two_fields() {
    let mut app = setup(&["dev"]);
    app.handle_event(Some(key('e')));
    assert!(matches!(
        app.mode,
        Mode::Form {
            kind: FormKind::Edit,
            ..
        }
    ));
    assert_eq!(app.form_fields.len(), 2);
}

#[test]
fn open_rename_form_has_one_field() {
    let mut app = setup(&["dev"]);
    app.handle_event(Some(key('r')));
    assert!(matches!(
        app.mode,
        Mode::Form {
            kind: FormKind::Rename,
            ..
        }
    ));
    assert_eq!(app.form_fields.len(), 1);
}

#[test]
fn form_tab_advances_focus() {
    let mut app = setup(&[]);
    app.handle_event(Some(key('a')));
    app.handle_event(press(KeyCode::Tab));
    assert!(matches!(app.mode, Mode::Form { focus: 1, .. }));
}

#[test]
fn form_esc_cancels() {
    let mut app = setup(&[]);
    app.handle_event(Some(key('a')));
    app.handle_event(press(KeyCode::Esc));
    assert_eq!(app.mode, Mode::Normal);
}

#[test]
fn commit_add_form_persists_to_store() {
    let mut app = setup(&[]);
    app.handle_event(Some(key('a')));
    // Type vault-id in field 0.
    type_text(&mut app, "newvault");
    // Tab to password field, type.
    app.handle_event(press(KeyCode::Tab));
    type_text(&mut app, "pass1");
    // Tab to confirm field, type same password.
    app.handle_event(press(KeyCode::Tab));
    type_text(&mut app, "pass1");
    // Enter on the last field submits.
    app.handle_event(press(KeyCode::Enter));
    assert_eq!(app.mode, Mode::Normal);
    assert_eq!(app.store.get("newvault").ok().unwrap().as_str(), "pass1");
}

#[test]
fn commit_add_form_mismatched_passwords_rejects() {
    let mut app = setup(&[]);
    app.handle_event(Some(key('a')));
    type_text(&mut app, "v");
    app.handle_event(press(KeyCode::Tab));
    type_text(&mut app, "a");
    app.handle_event(press(KeyCode::Tab));
    type_text(&mut app, "b");
    app.handle_event(press(KeyCode::Enter));
    assert_eq!(app.mode, Mode::Normal);
    assert!(app.store.get("v").is_err());
    assert!(app
        .message
        .as_deref()
        .unwrap_or("")
        .contains("do not match"));
}

#[test]
fn commit_edit_form_updates_password() {
    let mut app = setup(&["dev"]);
    app.handle_event(Some(key('e')));
    // Field 0: new password.
    type_text(&mut app, "newpw");
    app.handle_event(press(KeyCode::Tab));
    type_text(&mut app, "newpw");
    app.handle_event(press(KeyCode::Enter));
    assert_eq!(app.mode, Mode::Normal);
    assert_eq!(app.store.get("dev").ok().unwrap().as_str(), "newpw");
}

#[test]
fn commit_rename_form_moves_entry() {
    let mut app = setup(&["dev"]);
    app.handle_event(Some(key('r')));
    type_text(&mut app, "production");
    app.handle_event(press(KeyCode::Enter));
    assert_eq!(app.mode, Mode::Normal);
    assert!(app.store.get("dev").is_err());
    assert!(app.store.get("production").is_ok());
    assert!(indexed(&app).contains(&"production".to_string()));
    assert!(!indexed(&app).contains(&"dev".to_string()));
}

#[test]
fn slash_enters_search() {
    let mut app = setup(&["dev"]);
    app.handle_event(Some(key('/')));
    assert_eq!(app.mode, Mode::Search);
    app.handle_event(Some(key('d')));
    assert_eq!(app.search, "d");
}

#[test]
fn help_toggles() {
    let mut app = setup(&["dev"]);
    app.handle_event(Some(key('?')));
    assert_eq!(app.mode, Mode::Help);
    app.handle_event(Some(key('q')));
    assert_eq!(app.mode, Mode::Normal);
}

#[test]
fn form_password_field_masked_in_render_buffer() {
    let mut app = setup(&[]);
    // Open Add form, fill vault-id, Tab to password, type.
    app.handle_event(Some(key('a')));
    type_text(&mut app, "dev");
    app.handle_event(press(KeyCode::Tab));
    type_text(&mut app, "secret123");

    let rendered = render_string(&app);

    assert!(
        !rendered.contains("secret123"),
        "plaintext leaked into render buffer:\n{rendered}"
    );
    assert!(
        rendered.contains('\u{2022}'),
        "expected mask dot in render buffer:\n{rendered}"
    );
}

/// Pressing `g` on a password field generates a strong password, which renders
/// as a row of mask dots (never plaintext).
#[test]
fn form_generate_key_fills_masked_password() {
    let mut app = setup(&[]);
    // Open Add, Tab to the Password field (field 1, a secret field).
    app.handle_event(Some(key('a')));
    app.handle_event(press(KeyCode::Tab));

    // Before generating: no mask dots anywhere (both secret fields empty).
    let before = mask_dot_count(&render_string(&app));
    assert_eq!(before, 0, "expected no mask dots before [g]");

    // `g` generates a 32-char password into the focused field.
    app.handle_event(Some(key('g')));
    let rendered = render_string(&app);
    let after = mask_dot_count(&rendered);
    assert!(
        after >= 32,
        "[g] should generate a >=32-char password (got {after} mask dots)"
    );

    // The generated value must reach the buffer only as dots: read the real
    // secret back from the field and confirm it is absent from the render.
    let generated: String = app.form_fields()[1].value();
    assert!(
        !generated.is_empty(),
        "[g] did not populate the password field"
    );
    assert!(
        !rendered.contains(&generated),
        "generated password leaked as plaintext into the render buffer"
    );
}

/// The Help popup (`?`) renders the keybinding reference, including the "Space
/// to reveal" line that documents the toggle-reveal interaction.
#[test]
fn help_popup_renders_keybinding_reference() {
    let mut app = setup(&["dev"]);
    app.handle_event(Some(key('?')));
    assert_eq!(app.mode, Mode::Help);

    let rendered = render_string(&app);
    assert!(
        rendered.contains("Space to reveal"),
        "help should document Space-to-reveal:\n{rendered}"
    );
    assert!(
        rendered.contains("avpm TUI keybindings"),
        "help should render its heading:\n{rendered}"
    );
}

/// Tab moves focus between form fields, and the view reflects it: the focused
/// field's label is emphasized and the others are not.
#[test]
fn form_tab_moves_focus_rendering() {
    let mut app = setup(&[]);
    app.handle_event(Some(key('a')));

    assert!(
        label_is_focused(&app, "Vault ID"),
        "field 0 label should be emphasized when focused"
    );
    assert!(
        !label_is_focused(&app, "Password"),
        "field 1 label should not be emphasized when not focused"
    );

    // Tab -> focus 1: emphasis swaps.
    app.handle_event(press(KeyCode::Tab));
    assert!(
        !label_is_focused(&app, "Vault ID"),
        "field 0 label should not be emphasized after Tab"
    );
    assert!(
        label_is_focused(&app, "Password"),
        "field 1 label should be emphasized after Tab"
    );
}

#[test]
fn selection_wraps_at_both_ends() {
    let mut app = setup(&["a", "b", "c"]);
    app.handle_event(press(KeyCode::Up));
    assert_eq!(app.selected_id(), Some("c"));
    app.handle_event(press(KeyCode::Down));
    assert_eq!(app.selected_id(), Some("a"));
    app.handle_event(Some(key('G')));
    assert_eq!(app.selected_id(), Some("c"));
    app.handle_event(Some(key('g')));
    assert_eq!(app.selected_id(), Some("a"));
}

#[test]
fn a_search_filters_the_rows() {
    let mut app = setup(&["dev", "prod", "prod-db"]);
    app.handle_event(Some(key('/')));
    type_text(&mut app, "prod");
    assert_eq!(app.filtered_items().len(), 2);
    assert_eq!(search_line(&app), "/prod");
    app.handle_event(press(KeyCode::Enter));
    assert_eq!(app.mode, Mode::Normal);
    assert_eq!(app.selected_id(), Some("prod"));
}

#[test]
fn an_index_entry_without_a_password_is_hidden() {
    let mut idx = VaultIndex::new("/i".into());
    idx.add("dev").unwrap();
    idx.add("ghost").unwrap();
    let mut store = MockStore::new();
    store.seed("dev", "x");
    let app = App::load(store, idx, 0).ok().unwrap();
    assert_eq!(app.items.len(), 1);
    assert_eq!(title_text(&app), " avpm — Vault Secrets (1) ");
    let broken = VaultIndex::with_contents("/i".into(), IndexContents::Corrupted("x".into()));
    assert!(App::load(MockStore::new(), broken, 0).is_err());
}

#[test]
fn a_copy_clears_after_its_window() {
    let mut app = setup_clearing(&["dev"], 45);
    app.handle_event(Some(key('y')));
    app.finish_copy(Ok(()), 1_000);
    assert_eq!(app.message.as_deref(), Some("Copied 'dev' (clears in 45s)"));
    assert!(!app.on_tick(45_999));
    assert!(app.on_tick(46_000));
    assert_eq!(app.message.as_deref(), Some("Clipboard cleared"));
    assert!(!app.on_tick(99_999));
    // Without a window nothing is cleared.
    let mut app = setup_clearing(&["dev"], 0);
    app.handle_event(Some(key('y')));
    app.finish_copy(Ok(()), 1_000);
    assert_eq!(app.message.as_deref(), Some("Copied 'dev'"));
    assert!(!app.on_tick(u64::MAX));
    // A failure is told.
    app.handle_event(Some(key('y')));
    app.finish_copy(Err("x".into()), 0);
    assert_eq!(app.message.as_deref(), Some("Copy failed: x"));
}

#[test]
fn a_vanished_password_is_told() {
    let mut app = setup(&["dev"]);
    app.store.delete("dev").unwrap();
    app.handle_event(press(KeyCode::Enter));
    assert_eq!(app.mode, Mode::Normal);
    assert_eq!(
        app.message.as_deref(),
        Some("Failed to load 'dev': vault 'dev' not found")
    );
    app.handle_event(Some(key('y')));
    assert!(app.pending_copy.is_none());
}

#[test]
fn quitting_ends_the_loop() {
    let mut app = setup(&["dev"]);
    assert_eq!(app.handle_event(None), EventResult::Continue);
    assert_eq!(app.handle_event(Some(key('x'))), EventResult::Continue);
    assert_eq!(app.handle_event(Some(key('q'))), EventResult::Quit);
    assert!(app.should_quit());
}

#[test]
fn a_single_password_view_has_no_list_to_change() {
    let mut app = App::show_one(
        MockStore::new(),
        "dev".into(),
        VaultSecret::new("äb".into()),
        0,
    );
    assert!(matches!(app.mode, Mode::ShowPassword { reveal: false }));
    let hidden = password_view(&app, false);
    assert_eq!(hidden.heading, "Vault: dev");
    assert_eq!(hidden.display, "••");
    assert_eq!(password_view(&app, true).display, "äb");
    assert!(app.index.is_none());
    app.handle_event(press(KeyCode::Char(' ')));
    assert!(matches!(app.mode, Mode::ShowPassword { reveal: true }));
}

#[test]
fn empty_ids_are_refused() {
    let mut app = setup(&["dev"]);
    app.handle_event(Some(key('a')));
    for _ in 0..3 {
        app.handle_event(press(KeyCode::Enter));
    }
    assert_eq!(app.message.as_deref(), Some("✗ vault-id cannot be empty"));
    app.handle_event(Some(key('r')));
    app.handle_event(press(KeyCode::Enter));
    assert_eq!(app.message.as_deref(), Some("✗ new id cannot be empty"));
    assert_eq!(app.store.len(), 1);
}

#[test]
fn text_fields_edit_at_the_cursor() {
    let mut field = TextField::new(Some('*'));
    for c in ['a', 'b', 'c'] {
        assert!(field.input(key(c)));
    }
    assert!(field.input(KeyEvent::plain(KeyCode::Left)));
    assert!(field.input(KeyEvent::plain(KeyCode::Backspace)));
    assert_eq!(field.value(), "ac");
    assert_eq!(field.cursor_col(), 1);
    assert_eq!(field.display(), "**");
    assert!(field.input(KeyEvent::plain(KeyCode::Home)));
    assert!(field.input(KeyEvent::plain(KeyCode::Delete)));
    assert_eq!(field.value(), "c");
    assert!(field.input(KeyEvent::plain(KeyCode::End)));
    assert!(field.input(KeyEvent::plain(KeyCode::Right)));
    assert_eq!(field.cursor_col(), 1);
    assert!(!field.input(key('\u{7}')));
    assert!(!field.input(KeyEvent {
        code: KeyCode::Char('x'),
        control: true,
        alt: true
    }));
    assert!(!field.input(KeyEvent::plain(KeyCode::Enter)));
    field.replace("xyz");
    assert_eq!(field.value(), "xyz");
    assert_eq!(field.cursor_col(), 3);
    assert_eq!(TextField::new(None).display(), "");
}

#[test]
fn ctrl_and_alt_keys_are_left_to_the_application() {
    let mut field = TextField::new(None);
    field.replace("ab");
    for (control, alt) in [(true, false), (false, true), (true, true)] {
        for code in [KeyCode::Char('c'), KeyCode::Backspace, KeyCode::Home] {
            assert!(!field.input(KeyEvent { code, control, alt }));
            assert_eq!(field.value(), "ab");
            assert_eq!(field.cursor_col(), 2);
        }
    }
    assert!(field.input(key('c')));
    assert_eq!(field.value(), "abc");
}

#[test]
fn moving_about_a_form_keeps_what_was_typed() {
    let mut app = setup(&["dev"]);
    app.handle_event(Some(key('a')));
    app.handle_event(Some(key('x')));
    for code in [
        KeyCode::Tab,
        KeyCode::Tab,
        KeyCode::Tab,
        KeyCode::BackTab,
        KeyCode::BackTab,
        KeyCode::Enter,
    ] {
        app.handle_event(press(code));
    }
    assert_eq!(
        app.mode,
        Mode::Form {
            kind: FormKind::Add,
            focus: 2
        }
    );
    assert_eq!(app.form_fields()[0].value(), "x");
    app.handle_event(Some(key('s')));
    assert_eq!(app.form_fields()[0].display(), "x");
    assert_eq!(app.form_fields()[2].display(), "•");
    app.handle_event(press(KeyCode::Esc));
    assert_eq!(app.mode, Mode::Normal);
    assert_eq!(app.store.len(), 1);
}

#[test]
fn a_refused_write_is_shown_and_leaves_the_index() {
    let mut index = VaultIndex::new("/data/index.json".into());
    index.add("dev").unwrap();
    let held = VaultIndex::with_contents("/data/index.json".into(), index.contents);
    let mut app = App::load(ReadOnly, held, 0).ok().unwrap();
    assert_eq!(app.items.len(), 1);
    app.handle_event(Some(key('e')));
    app.handle_event(press(KeyCode::Enter));
    app.handle_event(press(KeyCode::Enter));
    assert_eq!(app.message.as_deref(), Some("✗ Edit failed: read-only"));
    app.handle_event(Some(key('r')));
    app.handle_event(Some(key('x')));
    app.handle_event(press(KeyCode::Enter));
    assert_eq!(app.message.as_deref(), Some("✗ Rename failed: read-only"));
    assert_eq!(app.index.as_ref().unwrap().list().unwrap(), vec!["dev"]);
    assert!(!app.index.as_ref().unwrap().changed);
}

/// A store that gives and does not take.
struct ReadOnly;

impl VaultStore for ReadOnly {
    fn get(&self, _vault_id: &str) -> Result<VaultSecret, Error> {
        Ok(VaultSecret::new("pw".into()))
    }
    fn set(&mut self, _vault_id: &str, _secret: &VaultSecret) -> Result<(), Error> {
        Err(Error::Other("read-only".into()))
    }
    fn delete(&mut self, _vault_id: &str) -> Result<(), Error> {
        Err(Error::Other("read-only".into()))
    }
}

#[test]
fn popups_are_centered_and_worded() {
    assert_eq!(centered_margin(100, 60), 20);
    assert_eq!(centered_margin(5, 2), 1);
    assert_eq!(centered_margin(7, 7), 0);
    let app = setup(&["dev"]);
    assert_eq!(delete_question(&app), "Delete 'dev'?");
    assert_eq!(delete_question(&setup(&[])), "Delete '(none)'?");
    assert_eq!(sync_lines().len(), 3);
    assert_eq!(status_line(&app), " avpm");
    assert_eq!(
        contextual_hints(&Mode::ConfirmDelete),
        "[Enter] confirm delete  [Esc] cancel"
    );
}
