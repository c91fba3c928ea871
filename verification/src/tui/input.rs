//! Minimal single-line text input for form fields.
//!
//! Forms need a small editing subset: character insertion at a cursor,
//! Backspace/Delete, Left/Right/Home/End, and display-time masking for password
//! fields.

use vstd::prelude::*;

use crate::text;
use crate::tui::event::{KeyCode, KeyEvent};

verus! {

/// A single-line editable field. Holds the real characters; `mask` is applied
/// only for display so the plaintext never reaches the terminal.
pub struct TextField {
    chars: Vec<char>,
    cursor: usize,
    mask: Option<char>,
}

/// What an editing key does to a text and a cursor in it.
pub struct Edit {
    pub text: Seq<char>,
    pub cursor: int,
    /// Whether the key was an editing key.
    pub consumed: bool,
}

/// The effect of a key on `text` with the cursor before position `cursor`. Keys
/// with Ctrl or Alt belong to the application; only plain (and Shift) presses
/// edit.
pub open spec fn edited(text: Seq<char>, cursor: int, key: KeyEvent) -> Edit {
    let ignored = Edit { text, cursor, consumed: false };
    let kept = Edit { text, cursor, consumed: true };
    if key.control || key.alt {
        ignored
    } else {
        match key.code {
            KeyCode::Char(c) => if text::is_control_char(c) {
                ignored
            } else {
                Edit { text: text.insert(cursor, c), cursor: cursor + 1, consumed: true }
            },
            KeyCode::Backspace => if cursor > 0 {
                Edit { text: text.remove(cursor - 1), cursor: cursor - 1, consumed: true }
            } else {
                kept
            },
            KeyCode::Delete => if cursor < text.len() {
                Edit { text: text.remove(cursor), cursor, consumed: true }
            } else {
                kept
            },
            KeyCode::Left => Edit {
                text,
                cursor: if cursor > 0 {
                    cursor - 1
                } else {
                    0
                },
                consumed: true,
            },
            KeyCode::Right => Edit {
                text,
                cursor: if cursor < text.len() {
                    cursor + 1
                } else {
                    text.len() as int
                },
                consumed: true,
            },
            KeyCode::Home => Edit { text, cursor: 0, consumed: true },
            KeyCode::End => Edit { text, cursor: text.len() as int, consumed: true },
            _ => ignored,
        }
    }
}

/// What a field shows: every character as the mask where there is one.
pub open spec fn displayed(text: Seq<char>, mask: Option<char>) -> Seq<char> {
    match mask {
        Some(m) => text::repeated(m, text.len()),
        None => text,
    }
}

impl TextField {
    /// The cursor is within the text or right behind it.
    #[verifier::type_invariant]
    spec fn cursor_in_text(self) -> bool {
        self.cursor <= self.chars@.len()
    }

    /// The plaintext.
    pub closed spec fn view(&self) -> Seq<char> {
        self.chars@
    }

    /// The position of the cursor.
    pub closed spec fn at(&self) -> int {
        self.cursor as int
    }

    /// The mask.
    pub closed spec fn mask_char(&self) -> Option<char> {
        self.mask
    }

    /// Create an empty field. `Some(m)` shows every character as `m`.
    pub fn new(mask: Option<char>) -> (r: Self)
        ensures
            r@ == Seq::<char>::empty(),
            r.at() == 0,
            r.mask_char() == mask,
    {
        TextField { chars: Vec::new(), cursor: 0, mask }
    }

    /// The field's plaintext value.
    #[must_use]
    pub fn value(&self) -> (r: String)
        ensures
            r@ == self@,
    {
        text::text_of(&self.chars)
    }

    /// Replace the whole content (used by password generation) and place the
    /// cursor at the end.
    pub fn replace(&mut self, s: &str)
        ensures
            final(self)@ == s@,
            final(self).at() == s@.len(),
            final(self).mask_char() == old(self).mask_char(),
    {
        let chars = text::chars_of(s);
        let cursor: usize = chars.len();
        *self = TextField { chars, cursor, mask: self.mask };
    }

    /// 0-based character column of the cursor (relative to the content area).
    #[must_use]
    pub fn cursor_col(&self) -> (r: usize)
        ensures
            r == self.at(),
            r <= self@.len(),
    {
        proof {
            use_type_invariant(self);
        }
        self.cursor
    }

    /// The text to show.
    #[must_use]
    pub fn display(&self) -> (r: String)
        ensures
            r@ == displayed(self@, self.mask_char()),
    {
        match self.mask {
            Some(m) => text::repeat(m, self.chars.len()),
            None => text::text_of(&self.chars),
        }
    }

    /// Apply an editing key; returns whether the key was consumed.
    pub fn input(&mut self, key: KeyEvent) -> (consumed: bool)
        ensures
            (Edit { text: final(self)@, cursor: final(self).at(), consumed }) == edited(
                old(self)@,
                old(self).at(),
                key,
            ),
            final(self).mask_char() == old(self).mask_char(),
            0 <= old(self).at() <= old(self)@.len(),
            0 <= final(self).at() <= final(self)@.len(),
    {
        proof {
            use_type_invariant(&*self);
        }
        if key.control || key.alt {
            return false;
        }
        let mut chars: Vec<char> = Vec::new();
        let mut cursor: usize = self.cursor;
        let mask = self.mask;
        self.cursor = 0;
        core::mem::swap(&mut self.chars, &mut chars);
        let consumed = match key.code {
            KeyCode::Char(c) => {
                if text::control_char(c) {
                    false
                } else {
                    chars.insert(cursor, c);
                    if cursor < chars.len() {
                        cursor = cursor + 1;
                    }
                    true
                }
            },
            KeyCode::Backspace => {
                if cursor > 0 {
                    cursor = cursor - 1;
                    chars.remove(cursor);
                }
                true
            },
            KeyCode::Delete => {
                if cursor < chars.len() {
                    chars.remove(cursor);
                }
                true
            },
            KeyCode::Left => {
                if cursor > 0 {
                    cursor = cursor - 1;
                }
                true
            },
            KeyCode::Right => {
                if cursor < chars.len() {
                    cursor = cursor + 1;
                }
                true
            },
            KeyCode::Home => {
                cursor = 0;
                true
            },
            KeyCode::End => {
                cursor = chars.len();
                true
            },
            _ => false,
        };
        *self = TextField { chars, cursor, mask };
        consumed
    }
}

/// An edit leaves the cursor within the text or right behind it.
pub proof fn cursor_stays_in_text(text: Seq<char>, cursor: int, key: KeyEvent)
    requires
        0 <= cursor <= text.len(),
    ensures
        0 <= edited(text, cursor, key).cursor <= edited(text, cursor, key).text.len(),
{
}

/// A key edits at the cursor and nowhere else: a character goes in before it, Backspace
/// takes the one before it, Delete the one behind it, and the others move it within the
/// text. Control characters, other keys and keys with Ctrl or Alt do nothing.
pub proof fn keys_edit_at_the_cursor(text: Seq<char>, cursor: int, key: KeyEvent)
    requires
        0 <= cursor <= text.len(),
    ensures
        ({
            let e = edited(text, cursor, key);
            let n = text.len() as int;
            if key.control || key.alt {
                e.text == text && e.cursor == cursor && !e.consumed
            } else {
                match key.code {
                    KeyCode::Char(c) => if (c as int) < 32 || 127 <= (c as int) < 160 {
                        e.text == text && e.cursor == cursor && !e.consumed
                    } else {
                        &&& e.text == text.take(cursor) + seq![c] + text.skip(cursor)
                        &&& e.cursor == cursor + 1 && e.consumed
                    },
                    KeyCode::Backspace => if cursor == 0 {
                        e.text == text && e.cursor == 0 && e.consumed
                    } else {
                        &&& e.text == text.take(cursor - 1) + text.skip(cursor)
                        &&& e.cursor == cursor - 1 && e.consumed
                    },
                    KeyCode::Delete => if cursor == n {
                        e.text == text && e.cursor == n && e.consumed
                    } else {
                        &&& e.text == text.take(cursor) + text.skip(cursor + 1)
                        &&& e.cursor == cursor && e.consumed
                    },
                    KeyCode::Left => e.text == text && e.consumed && (e.cursor == cursor - 1 || (
                    e.cursor == 0 && cursor == 0)),
                    KeyCode::Right => e.text == text && e.consumed && (e.cursor == cursor + 1 || (
                    e.cursor == n && cursor == n)),
                    KeyCode::Home => e.text == text && e.consumed && e.cursor == 0,
                    KeyCode::End => e.text == text && e.consumed && e.cursor == n,
                    _ => e.text == text && e.cursor == cursor && !e.consumed,
                }
            }
        }),
{
    if let KeyCode::Char(c) = key.code {
        assert(text.insert(cursor, c) =~= text.take(cursor) + seq![c] + text.skip(cursor));
    }
    if cursor > 0 {
        assert(text.remove(cursor - 1) =~= text.take(cursor - 1) + text.skip(cursor));
    }
    if cursor < text.len() {
        assert(text.remove(cursor) =~= text.take(cursor) + text.skip(cursor + 1));
    }
}

/// A field without a mask shows its text; one with a mask shows that, once for every
/// character.
pub proof fn mask_stands_for_every_character(text: Seq<char>, m: char)
    ensures
        displayed(text, None) == text,
        displayed(text, Some(m)).len() == text.len(),
        forall|i: int| 0 <= i < text.len() ==> #[trigger] displayed(text, Some(m))[i] == m,
{
}

/// Backspace takes back the character that was just typed.
pub proof fn backspace_undoes_typing(text: Seq<char>, cursor: int, c: char)
    requires
        0 <= cursor <= text.len(),
        !text::is_control_char(c),
    ensures
        ({
            let typed = edited(
                text,
                cursor,
                (KeyEvent { code: KeyCode::Char(c), control: false, alt: false }),
            );
            let undone = edited(
                typed.text,
                typed.cursor,
                (KeyEvent { code: KeyCode::Backspace, control: false, alt: false }),
            );
            undone.text == text && undone.cursor == cursor
        }),
{
    assert(text.insert(cursor, c).remove(cursor) =~= text);
}

/// Typing a text into an empty field, key by key, gives that text: one more
/// character typed at the end of `text` is one more character at its end.
pub proof fn typing_appends(text: Seq<char>, c: char)
    requires
        !text::is_control_char(c),
    ensures
        ({
            let typed = edited(
                text,
                text.len() as int,
                (KeyEvent { code: KeyCode::Char(c), control: false, alt: false }),
            );
            typed.text == text.push(c) && typed.cursor == text.len() + 1
        }),
{
    assert(text.insert(text.len() as int, c) =~= text.push(c));
}

/// A masked field shows nothing of its text but the length.
pub proof fn masked_display_tells_only_the_length(a: Seq<char>, b: Seq<char>, m: char)
    requires
        a.len() == b.len(),
    ensures
        displayed(a, Some(m)) == displayed(b, Some(m)),
{
}

} // verus!
