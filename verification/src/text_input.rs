//! Keyboard and paste handling for the overlays that edit a line of text.
use vstd::prelude::*;

use crate::app::App;
use crate::input::{
    after_backspace, cursor_pos, insert_at, lemma_word_moves_in_bounds, remove_range, word_left,
    word_right,
};
use crate::text::chars_of;
use crate::text::string_of_range;
use crate::types::{ActiveAction, CheckoutRemotePhase, OptionsPhase};

verus! {

/// A key of the keyboard, as the navigator tells keys apart.
#[derive(Debug, Clone, Copy, PartialEq, Eq, Structural)]
pub enum KeyCode {
    Esc,
    Enter,
    Backspace,
    Delete,
    Left,
    Right,
    Up,
    Down,
    Home,
    End,
    Tab,
    Char(char),
    /// Any key the navigator does not use.
    Other,
}

/// The modifier keys held with a key.
#[derive(Debug, Clone, Copy, PartialEq, Eq, Structural)]
pub struct KeyModifiers {
    pub control: bool,
    pub alt: bool,
}

impl KeyModifiers {
    /// No modifier held.
    pub fn none() -> (r: KeyModifiers)
        ensures
            !r.control && !r.alt,
    {
        KeyModifiers { control: false, alt: false }
    }

    /// Only Control held.
    pub fn ctrl() -> (r: KeyModifiers)
        ensures
            r.control && !r.alt,
    {
        KeyModifiers { control: true, alt: false }
    }
}

/// What a key did to a text field.
#[derive(Debug, Clone, Copy, PartialEq, Eq, Structural)]
pub enum TextInputKeyResult {
    Ignored,
    Updated,
    Submit,
    Cancel,
    Complete,
}

/// Whether the open overlay edits a line of text that takes keys and pastes.
pub open spec fn text_input_active(app: App) -> bool {
    match app.active_action {
        ActiveAction::NewBranch => !app.new_branch.loading,
        ActiveAction::Rename => !app.rename.loading,
        ActiveAction::SyncPr => !app.sync.pr_loading,
        ActiveAction::CloneRepo => !app.clone.loading,
        ActiveAction::CheckoutRemote => app.checkout_remote.phase == CheckoutRemotePhase::SelectRemote
            || app.checkout_remote.phase == CheckoutRemotePhase::EnterBranch,
        ActiveAction::Options => app.options.phase == OptionsPhase::Editing,
        _ => false,
    }
}

/// Whether the open overlay edits a line of text.
pub fn is_active(app: &App) -> (r: bool)
    ensures
        r == text_input_active(*app),
{
    match app.active_action {
        ActiveAction::NewBranch => !app.new_branch.loading,
        ActiveAction::Rename => !app.rename.loading,
        ActiveAction::SyncPr => !app.sync.pr_loading,
        ActiveAction::CloneRepo => !app.clone.loading,
        ActiveAction::CheckoutRemote => {
            !app.checkout_remote_is_loading() && (app.checkout_remote.phase
                == CheckoutRemotePhase::SelectRemote || app.checkout_remote.phase
                == CheckoutRemotePhase::EnterBranch)
        },
        ActiveAction::Options => app.options.phase == OptionsPhase::Editing,
        _ => false,
    }
}

/// Whether the terminal should report mouse events: not while text is edited (so the
/// terminal can select and paste) and not in the clone flow.
pub fn wants_mouse_capture(app: &App) -> (r: bool)
    ensures
        r == (app.active_action != ActiveAction::CloneRepo && !text_input_active(*app)),
{
    app.active_action != ActiveAction::CloneRepo && !is_active(app)
}

/// The effect of a key on the text field, as a result and the new text and cursor.
pub open spec fn key_effect(code: KeyCode, m: KeyModifiers, buf: Seq<char>, cursor: usize) -> (
    TextInputKeyResult,
    Seq<char>,
    int,
) {
    let p = cursor_pos(buf, cursor);
    match code {
        KeyCode::Esc => (TextInputKeyResult::Cancel, buf, cursor as int),
        KeyCode::Enter => (TextInputKeyResult::Submit, buf, cursor as int),
        KeyCode::Backspace => (
            TextInputKeyResult::Updated,
            after_backspace(buf, cursor as int),
            if cursor > 0 { cursor - 1 } else { 0 },
        ),
        KeyCode::Delete => if m.control {
            (TextInputKeyResult::Updated, remove_range(buf, p, word_right(buf, p)), p)
        } else if cursor < buf.len() {
            (TextInputKeyResult::Updated, remove_range(buf, cursor as int, cursor + 1), cursor as int)
        } else {
            (TextInputKeyResult::Updated, buf, cursor as int)
        },
        KeyCode::Left => if m.control {
            (TextInputKeyResult::Updated, buf, word_left(buf, p))
        } else {
            (TextInputKeyResult::Updated, buf, if cursor > 0 { cursor - 1 } else { 0 })
        },
        KeyCode::Right => if m.control {
            (TextInputKeyResult::Updated, buf, word_right(buf, p))
        } else {
            (
                TextInputKeyResult::Updated,
                buf,
                if cursor + 1 <= buf.len() { cursor + 1 } else { buf.len() as int },
            )
        },
        KeyCode::Home => (TextInputKeyResult::Updated, buf, 0),
        KeyCode::End => (TextInputKeyResult::Updated, buf, buf.len() as int),
        KeyCode::Tab => (TextInputKeyResult::Complete, buf, cursor as int),
        KeyCode::Char(c) => if !m.control && !m.alt {
            (TextInputKeyResult::Updated, insert_at(buf, p, seq![c]), cursor + 1)
        } else {
            (TextInputKeyResult::Ignored, buf, cursor as int)
        },
        _ => (TextInputKeyResult::Ignored, buf, cursor as int),
    }
}

/// Every key leaves the cursor within the text.
pub proof fn lemma_key_keeps_cursor_in_text(code: KeyCode, m: KeyModifiers, buf: Seq<char>, cursor: usize)
    requires
        cursor <= buf.len(),
    ensures
        0 <= key_effect(code, m, buf, cursor).2 <= key_effect(code, m, buf, cursor).1.len(),
{
    let p = cursor_pos(buf, cursor);
    lemma_word_moves_in_bounds(buf, p);
}

/// Typing a character and then Backspace gives back the text and the cursor.
pub proof fn lemma_char_then_backspace(c: char, buf: Seq<char>, cursor: usize)
    requires
        cursor <= buf.len(),
        cursor < usize::MAX,
    ensures
        ({
            let (_, typed, at) = key_effect(KeyCode::Char(c), KeyModifiers { control: false, alt: false }, buf, cursor);
            let (_, back, at2) = key_effect(KeyCode::Backspace, KeyModifiers { control: false, alt: false }, typed, at as usize);
            back == buf && at2 == cursor
        }),
{
    let typed = insert_at(buf, cursor as int, seq![c]);
    assert(after_backspace(typed, cursor + 1) =~= buf);
}

/// Applies an editing key to the text field of the open overlay.
pub fn handle_key(app: &mut App, code: KeyCode, modifiers: KeyModifiers) -> (r: TextInputKeyResult)
    requires
        old(app).input_ok(),
        old(app).input_cursor < usize::MAX,
    ensures
        r == key_effect(code, modifiers, old(app).input_buffer@, old(app).input_cursor).0,
        final(app).input_buffer@ == key_effect(
            code,
            modifiers,
            old(app).input_buffer@,
            old(app).input_cursor,
        ).1,
        final(app).input_cursor == key_effect(
            code,
            modifiers,
            old(app).input_buffer@,
            old(app).input_cursor,
        ).2,
        old(app).same_but_input(&*final(app)),
        r != TextInputKeyResult::Updated ==> *final(app) == *old(app),
        final(app).input_ok(),
{
    proof {
        lemma_key_keeps_cursor_in_text(code, modifiers, old(app).input_buffer@, old(app).input_cursor);
    }
    let ctrl = modifiers.control;
    match code {
        KeyCode::Esc => TextInputKeyResult::Cancel,
        KeyCode::Enter => TextInputKeyResult::Submit,
        KeyCode::Backspace => {
            app.input_backspace();
            TextInputKeyResult::Updated
        },
        KeyCode::Delete => {
            if ctrl {
                app.input_delete_next_word();
            } else {
                app.input_delete();
            }
            TextInputKeyResult::Updated
        },
        KeyCode::Left => {
            if ctrl {
                app.input_left_word();
            } else {
                app.input_left();
            }
            TextInputKeyResult::Updated
        },
        KeyCode::Right => {
            if ctrl {
                app.input_right_word();
            } else {
                app.input_right();
            }
            TextInputKeyResult::Updated
        },
        KeyCode::Home => {
            app.input_home();
            TextInputKeyResult::Updated
        },
        KeyCode::End => {
            app.input_end();
            TextInputKeyResult::Updated
        },
        KeyCode::Tab => TextInputKeyResult::Complete,
        KeyCode::Char(c) => {
            if !modifiers.control && !modifiers.alt {
                app.input_char(c);
                TextInputKeyResult::Updated
            } else {
                TextInputKeyResult::Ignored
            }
        },
        _ => TextInputKeyResult::Ignored,
    }
}

/// `s` without its trailing carriage returns and line feeds.
pub open spec fn trim_newlines(s: Seq<char>) -> Seq<char>
    decreases s.len(),
{
    if s.len() > 0 && (s.last() == '\r' || s.last() == '\n') {
        trim_newlines(s.drop_last())
    } else {
        s
    }
}

/// `text.trim_end_matches(['\r', '\n'])`.
pub fn strip_newlines(text: &str) -> (r: String)
    ensures
        r@ == trim_newlines(text@),
{
    let v = chars_of(text);
    let mut i: usize = v.len();
    assert(v@.take(v.len() as int) == v@);
    while i > 0 && (v[i - 1] == '\r' || v[i - 1] == '\n')
        invariant
            i <= v.len(),
            v@ == text@,
            trim_newlines(text@) == trim_newlines(v@.take(i as int)),
        decreases i,
    {
        assert(v@.take(i as int).drop_last() == v@.take(i - 1));
        i -= 1;
    }
    assert(v@.subrange(0, i as int) == v@.take(i as int));
    string_of_range(v.as_slice(), 0, i)
}

/// Pastes `text`, without its trailing line breaks, at the cursor of the active text
/// field; returns whether anything was inserted.
pub fn handle_paste(app: &mut App, text: &str) -> (r: bool)
    requires
        old(app).input_cursor + text@.len() <= usize::MAX,
    ensures
        r == (text_input_active(*old(app)) && trim_newlines(text@).len() > 0),
        r ==> final(app).input_buffer@ == insert_at(
            old(app).input_buffer@,
            old(app).cpos(),
            trim_newlines(text@),
        ) && final(app).input_cursor == old(app).input_cursor + trim_newlines(text@).len(),
        !r ==> final(app).input_buffer == old(app).input_buffer && final(app).input_cursor
            == old(app).input_cursor,
        old(app).same_but_input(&*final(app)),
{
    if !is_active(app) {
        return false;
    }
    let t = strip_newlines(text);
    proof {
        lemma_trim_newlines_shorter(text@);
    }
    if t.as_str().is_empty() {
        return false;
    }
    app.input_str(t.as_str());
    true
}

/// Trimming line breaks never lengthens a string.
pub proof fn lemma_trim_newlines_shorter(s: Seq<char>)
    ensures
        trim_newlines(s).len() <= s.len(),
    decreases s.len(),
{
    if s.len() > 0 && (s.last() == '\r' || s.last() == '\n') {
        lemma_trim_newlines_shorter(s.drop_last());
    }
}

} // verus!
