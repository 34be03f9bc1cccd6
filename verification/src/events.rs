//! The entry points of terminal events: keys, mouse events and pastes.
use vstd::prelude::*;

use crate::app::{command_action, App, ScreenState, SyncState, COMMAND_COUNT};
use crate::controller::{
    activate, activate_effect, checkout_remote_key_effect, clone_key_effect, dec, edited, handle_checkout_remote_key,
    handle_clone_key, handle_nav_key, handle_new_branch_key, handle_options_key, handle_rename_key,
    handle_sync_pr_key, handle_sync_trees_key, inc_to, is_left_key, is_right_key, is_yes_key, is_no_key,
    last_index, nav_key_effect, completion_of, open_action_effect, rename_target, shortcut_of,
    is_up, is_down,
    new_branch_key_effect, options_key_effect, options_ok, rename_key_effect, sync_pr_key_effect,
    sync_trees_key_effect, total,
};
use crate::input::{cursor_pos, insert_at};
use crate::picking::{
    ascending, copy_click_effect, copy_key_effect, copy_select_effect, copy_selection,
    copy_selection_idx, delete_click_effect, delete_cursor, delete_cursor_idx, delete_key_effect,
    deletable_before, deletable_from, handle_copy_secrets_confirm_click, handle_copy_secrets_key,
    handle_copy_secrets_select, handle_delete_confirm_click, handle_delete_key,
    handle_new_branch_confirm_click, new_branch_click_effect, set_copy_selection_idx,
    toggle_delete_selection, toggle_effect, with_copy_selection, delete_answer_effect,
    delete_question_effect, delete_browse_effect, with_delete_yes, popup_offset,
};
use crate::text_input::{self, text_input_active, trim_newlines, KeyCode, KeyModifiers};
use crate::git::{after_last, clone_dest};
use crate::text::{has_prefix, has_suffix, is_ws, trim_end_char_seq, trim_end_pat_seq, trim_end_seq, trim_seq, trim_start_seq};
use crate::types::{ActiveAction, CheckoutRemotePhase, CopySecretsPhase, OptionsPhase, Worktree};

verus! {

/// What a key does, whichever overlay has the keyboard. Control-C always quits.
pub open spec fn key_event_effect(o: App, n: App, code: KeyCode, m: KeyModifiers) -> bool {
    if m.control && code == KeyCode::Char('c') {
        n == (App { should_quit: true, ..o })
    } else {
        match o.active_action {
            ActiveAction::NewBranch => new_branch_key_effect(o, n, code, m),
            ActiveAction::Rename => rename_key_effect(o, n, code, m),
            ActiveAction::SyncPr => sync_pr_key_effect(o, n, code, m),
            ActiveAction::SyncTrees => sync_trees_key_effect(o, n, code),
            ActiveAction::Delete => delete_key_effect(o, n, code),
            ActiveAction::CopySecrets => copy_key_effect(o, n, code),
            ActiveAction::Options => options_key_effect(o, n, code, m),
            ActiveAction::CloneRepo => clone_key_effect(o, n, code, m),
            ActiveAction::CheckoutRemote => checkout_remote_key_effect(o, n, code, m),
            ActiveAction::Idle => nav_key_effect(o, n, code, m),
        }
    }
}

/// What the navigator expects of its state between events.
pub open spec fn ready(o: App) -> bool {
    &&& o.inv()
    &&& ascending(o.delete.checked@)
    &&& (o.active_action == ActiveAction::Options ==> options_ok(o))
}

/// An editing key keeps the cursor within the text and grows it by one character at most.
proof fn lemma_edit_keeps_ready(o: App, n: App, code: KeyCode, m: KeyModifiers)
    requires
        ready(o),
        o.input_buffer@.len() + 1 < usize::MAX,
        edited(o, n, code, m),
    ensures
        ready(n),
{
    let buf = o.input_buffer@;
    let cursor = o.input_cursor;
    let p = cursor_pos(buf, cursor);
    crate::text_input::lemma_key_keeps_cursor_in_text(code, m, buf, cursor);
    crate::input::lemma_word_moves_in_bounds(buf, p);
    let e = crate::text_input::key_effect(code, m, buf, cursor);
    assert(e.1.len() <= buf.len() + 1);
}

/// A key in the new-branch overlay keeps the state within what the event handlers expect
/// (`ready`), short of a text field that fills the whole address space.
#[verifier::spinoff_prover]
pub proof fn lemma_new_branch_keys_keep_ready(o: App, n: App, code: KeyCode, m: KeyModifiers)
    requires
        ready(o),
        o.input_buffer@.len() + 1 < usize::MAX,
        o.active_action == ActiveAction::NewBranch,
        new_branch_key_effect(o, n, code, m),
    ensures
        ready(n),
{
    if !o.new_branch.loading && o.new_branch.confirm_existing is None && code != KeyCode::Esc && code != KeyCode::Enter {
        lemma_edit_keeps_ready(o, n, code, m);
    }
}

/// A key in the rename overlay keeps the state within what the event handlers expect
/// (`ready`), short of a text field that fills the whole address space.
#[verifier::spinoff_prover]
pub proof fn lemma_rename_keys_keep_ready(o: App, n: App, code: KeyCode, m: KeyModifiers)
    requires
        ready(o),
        o.input_buffer@.len() + 1 < usize::MAX,
        o.active_action == ActiveAction::Rename,
        rename_key_effect(o, n, code, m),
    ensures
        ready(n),
{
    if !o.rename.loading && code != KeyCode::Esc && code != KeyCode::Enter {
        lemma_edit_keeps_ready(o, n, code, m);
    }
}

/// A key in the pull-request overlay keeps the state within what the event handlers
/// expect (`ready`), short of a text field that fills the whole address space.
#[verifier::spinoff_prover]
pub proof fn lemma_sync_pr_keys_keep_ready(o: App, n: App, code: KeyCode, m: KeyModifiers)
    requires
        ready(o),
        o.input_buffer@.len() + 1 < usize::MAX,
        o.active_action == ActiveAction::SyncPr,
        sync_pr_key_effect(o, n, code, m),
    ensures
        ready(n),
{
    if !o.sync.pr_loading && code != KeyCode::Esc && code != KeyCode::Enter {
        lemma_edit_keeps_ready(o, n, code, m);
    }
}

/// A key in the sync overlay keeps the state within what the event handlers expect
/// (`ready`).
#[verifier::spinoff_prover]
pub proof fn lemma_sync_trees_keys_keep_ready(o: App, n: App, code: KeyCode)
    requires
        ready(o),
        o.active_action == ActiveAction::SyncTrees,
        sync_trees_key_effect(o, n, code),
    ensures
        ready(n),
{
}

#[verifier::spinoff_prover]
proof fn lemma_delete_answer_keeps_ready(o: App, n: App, yes: bool)
    requires
        ready(o),
        o.active_action == ActiveAction::Delete,
        delete_answer_effect(o, n, yes),
    ensures
        ready(n),
{
}

#[verifier::spinoff_prover]
proof fn lemma_delete_question_keeps_ready(o: App, n: App, code: KeyCode)
    requires
        ready(o),
        o.active_action == ActiveAction::Delete,
        delete_question_effect(o, n, code),
    ensures
        ready(n),
{
    if is_left_key(code) || is_right_key(code) {
    } else if is_yes_key(code) {
        lemma_delete_answer_keeps_ready(with_delete_yes(o, true), n, true);
    } else if is_no_key(code) {
        lemma_delete_answer_keeps_ready(with_delete_yes(o, false), n, false);
    } else if code == KeyCode::Enter {
        lemma_delete_answer_keeps_ready(o, n, o.delete.confirm_yes);
    }
}

#[verifier::spinoff_prover]
proof fn lemma_delete_browse_keeps_ready(o: App, n: App, code: KeyCode)
    requires
        ready(o),
        o.active_action == ActiveAction::Delete,
        delete_browse_effect(o, n, code),
    ensures
        ready(n),
{
}

/// A key in the delete overlay keeps the state within what the event handlers expect
/// (`ready`): the checked worktrees stay ascending.
#[verifier::spinoff_prover]
pub proof fn lemma_delete_keys_keep_ready(o: App, n: App, code: KeyCode)
    requires
        ready(o),
        o.active_action == ActiveAction::Delete,
        delete_key_effect(o, n, code),
    ensures
        ready(n),
{
    if !o.delete.loading {
        if o.delete.warn_current || o.delete.confirming {
            lemma_delete_question_keeps_ready(o, n, code);
        } else {
            lemma_delete_browse_keeps_ready(o, n, code);
        }
    }
}

/// A key in the copy-secrets overlay keeps the state within what the event handlers
/// expect (`ready`).
#[verifier::spinoff_prover]
pub proof fn lemma_copy_keys_keep_ready(o: App, n: App, code: KeyCode)
    requires
        ready(o),
        o.active_action == ActiveAction::CopySecrets,
        copy_key_effect(o, n, code),
    ensures
        ready(n),
{
}

/// Every text that a key may copy into the text field, and the field itself, stays
/// below the machine limit with room for one more character.
pub open spec fn texts_fit(o: App) -> bool {
    &&& o.input_buffer@.len() + o.repo_root@.len() + 2 < usize::MAX
    &&& o.clone.url@.len() + 1 < usize::MAX
    &&& o.checkout_remote.name@.len() + 1 < usize::MAX
    &&& forall|i: int|
        0 <= i < o.worktrees@.len() ==> (#[trigger] o.worktrees@[i]).branch@.len() + 1 < usize::MAX
    &&& forall|i: int|
        0 <= i < o.checkout_remote.branches@.len() ==> (#[trigger] o.checkout_remote.branches@[
            i
        ])@.len() + 1 < usize::MAX
    &&& forall|i: int|
        0 <= i < o.repo_config.post_create_scripts@.len() ==> (
        #[trigger] o.repo_config.post_create_scripts@[i]).command@.len() + 1 < usize::MAX
}

proof fn lemma_trim_start_len(s: Seq<char>)
    ensures
        trim_start_seq(s).len() <= s.len(),
    decreases s.len(),
{
    if s.len() > 0 && is_ws(s[0]) {
        lemma_trim_start_len(s.drop_first());
    }
}

proof fn lemma_trim_end_len(s: Seq<char>)
    ensures
        trim_end_seq(s).len() <= s.len(),
    decreases s.len(),
{
    if s.len() > 0 && is_ws(s.last()) {
        lemma_trim_end_len(s.drop_last());
    }
}

proof fn lemma_trim_end_char_len(s: Seq<char>, c: char)
    ensures
        trim_end_char_seq(s, c).len() <= s.len(),
    decreases s.len(),
{
    if s.len() > 0 && s.last() == c {
        lemma_trim_end_char_len(s.drop_last(), c);
    }
}

proof fn lemma_trim_end_pat_len(s: Seq<char>, p: Seq<char>)
    ensures
        trim_end_pat_seq(s, p).len() <= s.len(),
    decreases s.len(),
{
    if p.len() > 0 && has_suffix(s, p) {
        lemma_trim_end_pat_len(s.take(s.len() - p.len()), p);
    }
}

proof fn lemma_after_last_len(s: Seq<char>, c: char)
    ensures
        after_last(s, c).len() <= s.len(),
    decreases s.len(),
{
    if s.len() > 0 && s.last() != c {
        lemma_after_last_len(s.drop_last(), c);
    }
}

/// A clone's proposed destination is no longer than the directory and the source
/// together, with one separator.
proof fn lemma_clone_dest_len(source: Seq<char>, cwd: Seq<char>)
    ensures
        clone_dest(source, cwd).len() <= cwd.len() + source.len() + 1,
{
    let a = trim_end_char_seq(source, '/');
    lemma_trim_end_char_len(source, '/');
    let b = after_last(a, '/');
    lemma_after_last_len(a, '/');
    lemma_trim_end_pat_len(b, ".git"@);
    reveal_strlit("/");
}

/// A completion and the text it completes make up one of the branches.
proof fn lemma_completion_len(bs: Seq<String>, t: Seq<char>)
    requires
        completion_of(bs, t) is Some,
    ensures
        exists|k: int|
            0 <= k < bs.len() && t.len() + completion_of(bs, t)->0.len() == (#[trigger] bs[k])@.len(),
    decreases bs.len(),
{
    if has_prefix(bs[0]@, t) && bs[0]@.len() > t.len() {
        assert(t.len() + completion_of(bs, t)->0.len() == bs[0]@.len());
    } else {
        lemma_completion_len(bs.drop_first(), t);
        let k = choose|k: int|
            0 <= k < bs.drop_first().len() && t.len() + completion_of(bs.drop_first(), t)->0.len()
                == (#[trigger] bs.drop_first()[k])@.len();
        assert(bs[k + 1] == bs.drop_first()[k]);
    }
}

/// A key in the options overlay keeps the state within what the event handlers expect
/// (`ready`), short of texts that fill the whole address space (`texts_fit`).
#[verifier::spinoff_prover]
pub proof fn lemma_options_keys_keep_ready(o: App, n: App, code: KeyCode, m: KeyModifiers)
    requires
        ready(o),
        texts_fit(o),
        o.active_action == ActiveAction::Options,
        options_key_effect(o, n, code, m),
    ensures
        ready(n),
{
    let count = o.repo_config.post_create_scripts@.len();
    if o.options.phase == OptionsPhase::Editing {
        if code != KeyCode::Esc && code != KeyCode::Enter {
            lemma_edit_keeps_ready(o, n, code, m);
        }
    } else if code == KeyCode::Enter || code == KeyCode::Char('e') {
        if count > 0 {
            let k = o.options.selected_idx as int;
            assert(o.repo_config.post_create_scripts@[k].command@.len() + 1 < usize::MAX);
        }
    }
}

/// A key in the clone flow keeps the state within what the event handlers expect
/// (`ready`), short of texts that fill the whole address space (`texts_fit`).
#[verifier::spinoff_prover]
pub proof fn lemma_clone_keys_keep_ready(o: App, n: App, code: KeyCode, m: KeyModifiers)
    requires
        ready(o),
        texts_fit(o),
        o.active_action == ActiveAction::CloneRepo,
        clone_key_effect(o, n, code, m),
    ensures
        ready(n),
{
    if !o.clone.loading {
        if code == KeyCode::Enter {
            let input = trim_seq(o.input_buffer@);
            lemma_trim_start_len(o.input_buffer@);
            lemma_trim_end_len(trim_start_seq(o.input_buffer@));
            lemma_clone_dest_len(input, o.repo_root@);
        } else if code != KeyCode::Esc {
            lemma_edit_keeps_ready(o, n, code, m);
        }
    }
}

/// A key in the checkout-remote overlay keeps the state within what the event handlers
/// expect (`ready`), short of texts that fill the whole address space (`texts_fit`).
#[verifier::spinoff_prover]
pub proof fn lemma_checkout_remote_keys_keep_ready(o: App, n: App, code: KeyCode, m: KeyModifiers)
    requires
        ready(o),
        texts_fit(o),
        o.active_action == ActiveAction::CheckoutRemote,
        checkout_remote_key_effect(o, n, code, m),
    ensures
        ready(n),
{
    let phase = o.checkout_remote.phase;
    if phase == CheckoutRemotePhase::SelectRemote || phase == CheckoutRemotePhase::EnterBranch {
        if code == KeyCode::Tab && phase == CheckoutRemotePhase::EnterBranch {
            if completion_of(o.checkout_remote.branches@, o.input_buffer@) is Some {
                lemma_completion_len(o.checkout_remote.branches@, o.input_buffer@);
            }
        } else if code != KeyCode::Esc && code != KeyCode::Enter {
            lemma_edit_keeps_ready(o, n, code, m);
        }
    }
}

#[verifier::spinoff_prover]
proof fn lemma_open_newbranch_keeps_ready(o: App, n: App)
    requires
        ready(o),
        open_action_effect(o, n, ActiveAction::NewBranch),
    ensures
        ready(n),
{
}

#[verifier::spinoff_prover]
proof fn lemma_open_syncpr_keeps_ready(o: App, n: App)
    requires
        ready(o),
        open_action_effect(o, n, ActiveAction::SyncPr),
    ensures
        ready(n),
{
}

#[verifier::spinoff_prover]
proof fn lemma_open_synctrees_keeps_ready(o: App, n: App)
    requires
        ready(o),
        open_action_effect(o, n, ActiveAction::SyncTrees),
    ensures
        ready(n),
{
}

#[verifier::spinoff_prover]
proof fn lemma_open_delete_keeps_ready(o: App, n: App)
    requires
        ready(o),
        open_action_effect(o, n, ActiveAction::Delete),
    ensures
        ready(n),
{
}

#[verifier::spinoff_prover]
proof fn lemma_open_copysecrets_keeps_ready(o: App, n: App)
    requires
        ready(o),
        open_action_effect(o, n, ActiveAction::CopySecrets),
    ensures
        ready(n),
{
}

#[verifier::spinoff_prover]
proof fn lemma_open_options_keeps_ready(o: App, n: App)
    requires
        ready(o),
        open_action_effect(o, n, ActiveAction::Options),
    ensures
        ready(n),
{
}

#[verifier::spinoff_prover]
proof fn lemma_open_clonerepo_keeps_ready(o: App, n: App)
    requires
        ready(o),
        open_action_effect(o, n, ActiveAction::CloneRepo),
    ensures
        ready(n),
{
}

#[verifier::spinoff_prover]
proof fn lemma_open_checkoutremote_keeps_ready(o: App, n: App)
    requires
        ready(o),
        open_action_effect(o, n, ActiveAction::CheckoutRemote),
    ensures
        ready(n),
{
}

#[verifier::spinoff_prover]
proof fn lemma_open_idle_keeps_ready(o: App, n: App)
    requires
        ready(o),
        open_action_effect(o, n, ActiveAction::Idle),
    ensures
        ready(n),
{
}

#[verifier::spinoff_prover]
proof fn lemma_open_rename_none_keeps_ready(o: App, n: App)
    requires
        ready(o),
        rename_target(o) is None,
        open_action_effect(o, n, ActiveAction::Rename),
    ensures
        ready(n),
{
}

#[verifier::spinoff_prover]
proof fn lemma_open_rename_main_keeps_ready(o: App, n: App, i: int)
    requires
        ready(o),
        rename_target(o) == Some(i),
        o.worktrees@[i].is_main,
        open_action_effect(o, n, ActiveAction::Rename),
    ensures
        ready(n),
{
}

#[verifier::spinoff_prover]
proof fn lemma_open_rename_some_keeps_ready(o: App, n: App, i: int)
    requires
        ready(o),
        rename_target(o) == Some(i),
        0 <= i < o.worktrees@.len(),
        !o.worktrees@[i].is_main,
        o.worktrees@[i].branch@.len() + 1 < usize::MAX,
        open_action_effect(o, n, ActiveAction::Rename),
    ensures
        ready(n),
{
}

proof fn lemma_open_rename_keeps_ready(o: App, n: App)
    requires
        ready(o),
        texts_fit(o),
        open_action_effect(o, n, ActiveAction::Rename),
    ensures
        ready(n),
{
    match rename_target(o) {
        None => lemma_open_rename_none_keeps_ready(o, n),
        Some(i) => {
            assert(0 <= i < o.worktrees@.len()) by {
                crate::app::lemma_first_where_in_range(o.worktrees@, |w: Worktree| w.is_current);
            }
            if o.worktrees@[i].is_main {
                lemma_open_rename_main_keeps_ready(o, n, i);
            } else {
                lemma_open_rename_some_keeps_ready(o, n, i);
            }
        },
    }
}

/// Opening an overlay keeps the state within what the event handlers expect (`ready`),
/// short of texts that fill the whole address space (`texts_fit`).
pub proof fn lemma_open_keeps_ready(o: App, n: App, action: ActiveAction)
    requires
        ready(o),
        texts_fit(o),
        open_action_effect(o, n, action),
    ensures
        ready(n),
{
    match action {
        ActiveAction::Rename => lemma_open_rename_keeps_ready(o, n),
        ActiveAction::NewBranch => lemma_open_newbranch_keeps_ready(o, n),
        ActiveAction::SyncPr => lemma_open_syncpr_keeps_ready(o, n),
        ActiveAction::SyncTrees => lemma_open_synctrees_keeps_ready(o, n),
        ActiveAction::Delete => lemma_open_delete_keeps_ready(o, n),
        ActiveAction::CopySecrets => lemma_open_copysecrets_keeps_ready(o, n),
        ActiveAction::Options => lemma_open_options_keeps_ready(o, n),
        ActiveAction::CloneRepo => lemma_open_clonerepo_keeps_ready(o, n),
        ActiveAction::CheckoutRemote => lemma_open_checkoutremote_keeps_ready(o, n),
        ActiveAction::Idle => lemma_open_idle_keeps_ready(o, n),
    }
}

/// A key on the main list keeps the state within what the event handlers expect
/// (`ready`), short of texts that fill the whole address space (`texts_fit`).
#[verifier::spinoff_prover]
pub proof fn lemma_nav_keys_keep_ready(o: App, n: App, code: KeyCode, m: KeyModifiers)
    requires
        ready(o),
        texts_fit(o),
        o.active_action == ActiveAction::Idle,
        nav_key_effect(o, n, code, m),
    ensures
        ready(n),
{
    if code == KeyCode::Char('q') || code == KeyCode::Esc || is_up(code) || is_down(code) {
    } else if code is Char {
        match shortcut_of(code->0) {
            Some(action) => lemma_open_keeps_ready(o, n, action),
            None => {},
        }
    } else if code == KeyCode::Enter {
        if o.selected_index < COMMAND_COUNT {
            lemma_open_keeps_ready(o, n, command_action(o.selected_index as int));
        }
    }
}

/// Every key keeps the state within what the event handlers expect (`ready`): the
/// cursor stays within the text, the checked worktrees stay ascending and the options
/// overlay's indices point at scripts. Texts that fill the whole address space
/// (`texts_fit`) are left out.
pub proof fn lemma_key_keeps_ready(o: App, n: App, code: KeyCode, m: KeyModifiers)
    requires
        ready(o),
        texts_fit(o),
        key_event_effect(o, n, code, m),
    ensures
        ready(n),
{
    if !(m.control && code == KeyCode::Char('c')) {
        match o.active_action {
            ActiveAction::Idle => lemma_nav_keys_keep_ready(o, n, code, m),
            ActiveAction::NewBranch => lemma_new_branch_keys_keep_ready(o, n, code, m),
            ActiveAction::Rename => lemma_rename_keys_keep_ready(o, n, code, m),
            ActiveAction::SyncPr => lemma_sync_pr_keys_keep_ready(o, n, code, m),
            ActiveAction::SyncTrees => lemma_sync_trees_keys_keep_ready(o, n, code),
            ActiveAction::Delete => lemma_delete_keys_keep_ready(o, n, code),
            ActiveAction::CopySecrets => lemma_copy_keys_keep_ready(o, n, code),
            ActiveAction::Options => lemma_options_keys_keep_ready(o, n, code, m),
            ActiveAction::CloneRepo => lemma_clone_keys_keep_ready(o, n, code, m),
            ActiveAction::CheckoutRemote => lemma_checkout_remote_keys_keep_ready(o, n, code, m),
        }
    }
}

#[verifier::spinoff_prover]
proof fn lemma_delete_click_keeps_ready(o: App, n: App, column: u16, row: u16)
    requires
        ready(o),
        o.active_action == ActiveAction::Delete,
        delete_click_effect(o, n, column, row),
    ensures
        ready(n),
{
    let height: u16 = if o.delete.warn_current {
        11
    } else {
        10
    };
    let (x, y) = popup_offset(o, 60, height, column, row);
    if 5 <= y <= 6 {
        let yes = x <= 30;
        let a = with_delete_yes(o, yes);
        if o.delete.warn_current {
            lemma_delete_answer_keeps_ready(a, n, yes);
        } else {
            lemma_delete_answer_keeps_ready(a, n, yes);
        }
    }
}

#[verifier::spinoff_prover]
proof fn lemma_list_click_keeps_ready(o: App, n: App, row: u16)
    requires
        ready(o),
        texts_fit(o),
        o.active_action == ActiveAction::Idle || picking(o),
        list_click_effect(o, n, row),
    ensures
        ready(n),
{
    match row_item(o.screen.item_rows@, row) {
        None => {},
        Some(idx) => {
            if !sync_picking(o) && !delete_picking(o) && !copy_picking(o) {
                let a = App { selected_index: idx, ..o };
                if idx < COMMAND_COUNT {
                    lemma_open_keeps_ready(a, n, command_action(idx as int));
                }
            }
        },
    }
}

/// Every mouse event keeps the state within what the event handlers expect (`ready`);
/// texts that fill the whole address space (`texts_fit`) are left out.
#[verifier::spinoff_prover]
pub proof fn lemma_mouse_keeps_ready(o: App, n: App, kind: MouseEventKind, column: u16, row: u16)
    requires
        ready(o),
        texts_fit(o),
        mouse_effect(o, n, kind, column, row),
    ensures
        ready(n),
{
    let left = kind == MouseEventKind::LeftDown;
    if left && o.active_action == ActiveAction::NewBranch && o.new_branch.confirm_existing is Some {
    } else if left && o.active_action == ActiveAction::Delete && (o.delete.confirming
        || o.delete.warn_current) {
        lemma_delete_click_keeps_ready(o, n, column, row);
    } else if left && o.active_action == ActiveAction::CopySecrets && o.copy_secrets.phase
        == CopySecretsPhase::ConfirmOverwrite {
    } else if o.active_action != ActiveAction::Idle && !picking(o) {
    } else if kind == MouseEventKind::LeftDown {
        lemma_list_click_keeps_ready(o, n, row);
    }
}

/// A paste keeps the state within what the event handlers expect (`ready`), short of a
/// text field that would fill the whole address space.
pub proof fn lemma_paste_keeps_ready(o: App, n: App, text: Seq<char>)
    requires
        ready(o),
        o.input_buffer@.len() + text.len() + 1 < usize::MAX,
        text_input_active(o) && trim_newlines(text).len() > 0 ==> n.input_buffer@ == insert_at(
            o.input_buffer@,
            o.cpos(),
            trim_newlines(text),
        ) && n.input_cursor == o.input_cursor + trim_newlines(text).len(),
        !(text_input_active(o) && trim_newlines(text).len() > 0) ==> n.input_buffer
            == o.input_buffer && n.input_cursor == o.input_cursor,
        o.same_but_input(&n),
    ensures
        ready(n),
{
    crate::text_input::lemma_trim_newlines_shorter(text);
}

/// The overlay is on its first step with nothing running: no operation in progress,
/// no question asked, no result shown.
pub open spec fn at_first_step(o: App) -> bool {
    match o.active_action {
        ActiveAction::Idle => false,
        ActiveAction::NewBranch => !o.new_branch.loading && o.new_branch.confirm_existing is None,
        ActiveAction::Rename => !o.rename.loading,
        ActiveAction::SyncPr => !o.sync.pr_loading,
        ActiveAction::SyncTrees => !o.sync.loading && o.sync.results@.len() == 0,
        ActiveAction::Delete => !o.delete.loading && !o.delete.confirming && !o.delete.warn_current,
        ActiveAction::CopySecrets => !o.copy_secrets.loading && o.copy_secrets.phase
            == CopySecretsPhase::SelectSource,
        ActiveAction::Options => o.options.phase == OptionsPhase::BrowsingScripts,
        ActiveAction::CloneRepo => !o.clone.loading && o.clone.step == 0 && !o.no_repo,
        ActiveAction::CheckoutRemote => o.checkout_remote.phase == CheckoutRemotePhase::SelectRemote,
    }
}

#[verifier::spinoff_prover]
proof fn lemma_esc_new_branch(o: App, n: App, m: KeyModifiers)
    requires
        at_first_step(o),
        !o.should_quit,
        o.active_action == ActiveAction::NewBranch,
        new_branch_key_effect(o, n, KeyCode::Esc, m),
    ensures
        n.active_action == ActiveAction::Idle,
        !n.should_quit,
{
}

#[verifier::spinoff_prover]
proof fn lemma_esc_rename(o: App, n: App, m: KeyModifiers)
    requires
        at_first_step(o),
        !o.should_quit,
        o.active_action == ActiveAction::Rename,
        rename_key_effect(o, n, KeyCode::Esc, m),
    ensures
        n.active_action == ActiveAction::Idle,
        !n.should_quit,
{
}

#[verifier::spinoff_prover]
proof fn lemma_esc_sync_pr(o: App, n: App, m: KeyModifiers)
    requires
        at_first_step(o),
        !o.should_quit,
        o.active_action == ActiveAction::SyncPr,
        sync_pr_key_effect(o, n, KeyCode::Esc, m),
    ensures
        n.active_action == ActiveAction::Idle,
        !n.should_quit,
{
}

#[verifier::spinoff_prover]
proof fn lemma_esc_sync_trees(o: App, n: App, m: KeyModifiers)
    requires
        at_first_step(o),
        !o.should_quit,
        o.active_action == ActiveAction::SyncTrees,
        sync_trees_key_effect(o, n, KeyCode::Esc),
    ensures
        n.active_action == ActiveAction::Idle,
        !n.should_quit,
{
}

#[verifier::spinoff_prover]
proof fn lemma_esc_delete(o: App, n: App, m: KeyModifiers)
    requires
        at_first_step(o),
        !o.should_quit,
        o.active_action == ActiveAction::Delete,
        delete_key_effect(o, n, KeyCode::Esc),
    ensures
        n.active_action == ActiveAction::Idle,
        !n.should_quit,
{
}

#[verifier::spinoff_prover]
proof fn lemma_esc_copy_secrets(o: App, n: App, m: KeyModifiers)
    requires
        at_first_step(o),
        !o.should_quit,
        o.active_action == ActiveAction::CopySecrets,
        copy_key_effect(o, n, KeyCode::Esc),
    ensures
        n.active_action == ActiveAction::Idle,
        !n.should_quit,
{
}

#[verifier::spinoff_prover]
proof fn lemma_esc_options(o: App, n: App, m: KeyModifiers)
    requires
        at_first_step(o),
        !o.should_quit,
        o.active_action == ActiveAction::Options,
        options_key_effect(o, n, KeyCode::Esc, m),
    ensures
        n.active_action == ActiveAction::Idle,
        !n.should_quit,
{
}

#[verifier::spinoff_prover]
proof fn lemma_esc_clone_repo(o: App, n: App, m: KeyModifiers)
    requires
        at_first_step(o),
        !o.should_quit,
        o.active_action == ActiveAction::CloneRepo,
        clone_key_effect(o, n, KeyCode::Esc, m),
    ensures
        n.active_action == ActiveAction::Idle,
        !n.should_quit,
{
}

#[verifier::spinoff_prover]
proof fn lemma_esc_checkout_remote(o: App, n: App, m: KeyModifiers)
    requires
        at_first_step(o),
        !o.should_quit,
        o.active_action == ActiveAction::CheckoutRemote,
        checkout_remote_key_effect(o, n, KeyCode::Esc, m),
    ensures
        n.active_action == ActiveAction::Idle,
        !n.should_quit,
{
}

/// Esc on the first step of an overlay goes back to the main list.
pub proof fn lemma_esc_returns_to_list(o: App, n: App)
    requires
        at_first_step(o),
        !o.should_quit,
        key_event_effect(o, n, KeyCode::Esc, KeyModifiers { control: false, alt: false }),
    ensures
        n.active_action == ActiveAction::Idle,
        !n.should_quit,
{
    let m = KeyModifiers { control: false, alt: false };
    match o.active_action {
        ActiveAction::Idle => {},
        ActiveAction::NewBranch => lemma_esc_new_branch(o, n, m),
        ActiveAction::Rename => lemma_esc_rename(o, n, m),
        ActiveAction::SyncPr => lemma_esc_sync_pr(o, n, m),
        ActiveAction::SyncTrees => lemma_esc_sync_trees(o, n, m),
        ActiveAction::Delete => lemma_esc_delete(o, n, m),
        ActiveAction::CopySecrets => lemma_esc_copy_secrets(o, n, m),
        ActiveAction::Options => lemma_esc_options(o, n, m),
        ActiveAction::CloneRepo => lemma_esc_clone_repo(o, n, m),
        ActiveAction::CheckoutRemote => lemma_esc_checkout_remote(o, n, m),
    }
}

/// Whether the state meets what the event handlers expect of it (see `ready`).
pub fn is_ready(app: &App) -> (r: bool)
    ensures
        r == ready(*app),
{
    let n = crate::text::char_count(app.input_buffer.as_str());
    if !(app.input_cursor <= n && n < usize::MAX && app.worktrees.len() <= usize::MAX
        - COMMAND_COUNT) {
        return false;
    }
    let checked = &app.delete.checked;
    let mut i: usize = 1;
    while i < checked.len()
        invariant
            1 <= i,
            checked@ == app.delete.checked@,
            checked@.len() > 0 ==> i <= checked@.len(),
            forall|a: int, b: int| 0 <= a < b < i && b < checked@.len() ==> checked@[a]
                < checked@[b],
        decreases checked@.len() - i,
    {
        if checked[i - 1] >= checked[i] {
            assert(!ascending(app.delete.checked@));
            return false;
        }
        proof {
            assert forall|a: int, b: int| 0 <= a < b < i + 1 && b < checked@.len() implies checked@[a]
                < checked@[b] by {
                if b == i && a < i - 1 {
                    assert(checked@[a] < checked@[i - 1]);
                }
            }
        }
        i += 1;
    }
    assert(ascending(app.delete.checked@));
    if app.active_action == ActiveAction::Options {
        let len = app.repo_config.post_create_scripts.len();
        if len > 0 && app.options.selected_idx >= len {
            return false;
        }
        match app.options.edit_idx {
            Some(k) => {
                if k >= len {
                    return false;
                }
            },
            None => {},
        }
    }
    true
}

/// Handles a key press.
pub fn handle_key(app: &mut App, code: KeyCode, modifiers: KeyModifiers)
    requires
        ready(*old(app)),
    ensures
        key_event_effect(*old(app), *final(app), code, modifiers),
{
    if modifiers.control && code == KeyCode::Char('c') {
        app.should_quit = true;
        return;
    }
    match app.active_action {
        ActiveAction::NewBranch => handle_new_branch_key(app, code, modifiers),
        ActiveAction::Rename => handle_rename_key(app, code, modifiers),
        ActiveAction::SyncPr => handle_sync_pr_key(app, code, modifiers),
        ActiveAction::SyncTrees => handle_sync_trees_key(app, code),
        ActiveAction::Delete => handle_delete_key(app, code),
        ActiveAction::CopySecrets => handle_copy_secrets_key(app, code),
        ActiveAction::Options => handle_options_key(app, code, modifiers),
        ActiveAction::CloneRepo => handle_clone_key(app, code, modifiers),
        ActiveAction::CheckoutRemote => handle_checkout_remote_key(app, code, modifiers),
        ActiveAction::Idle => handle_nav_key(app, code, modifiers),
    }
}

/// Pastes text into the active text field (see `text_input::handle_paste`).
pub fn handle_paste(app: &mut App, text: &str)
    requires
        old(app).input_cursor + text@.len() <= usize::MAX,
    ensures
        text_input_active(*old(app)) && trim_newlines(text@).len() > 0 ==> final(app).input_buffer@
            == insert_at(old(app).input_buffer@, old(app).cpos(), trim_newlines(text@))
            && final(app).input_cursor == old(app).input_cursor + trim_newlines(text@).len(),
        !(text_input_active(*old(app)) && trim_newlines(text@).len() > 0) ==> final(app).input_buffer
            == old(app).input_buffer && final(app).input_cursor == old(app).input_cursor,
        old(app).same_but_input(&*final(app)),
{
    let _ = text_input::handle_paste(app, text);
}

// ───────────────────────────── mouse ─────────────────────────────

/// The mouse events the navigator reacts to.
#[derive(Debug, Clone, Copy, PartialEq, Eq, Structural)]
pub enum MouseEventKind {
    Moved,
    /// The left button went down.
    LeftDown,
    ScrollUp,
    ScrollDown,
    /// Any other mouse event.
    Other,
}

/// The item drawn on screen row `row`: the first recorded row that matches.
pub open spec fn row_item(rows: Seq<(u16, usize)>, row: u16) -> Option<usize>
    decreases rows.len(),
{
    if rows.len() == 0 {
        None
    } else if rows[0].0 == row {
        Some(rows[0].1)
    } else {
        row_item(rows.drop_first(), row)
    }
}

/// The item drawn on a screen row.
fn item_at_row(app: &App, row: u16) -> (r: Option<usize>)
    ensures
        r == row_item(app.screen.item_rows@, row),
{
    let rows = &app.screen.item_rows;
    let mut k: usize = 0;
    assert(rows@.skip(0) == rows@);
    while k < rows.len()
        invariant
            k <= rows@.len(),
            rows@ == app.screen.item_rows@,
            row_item(rows@, row) == row_item(rows@.skip(k as int), row),
        decreases rows@.len() - k,
    {
        assert(rows@.skip(k as int)[0] == rows@[k as int]);
        assert(rows@.skip(k as int).drop_first() == rows@.skip(k + 1));
        if rows[k].0 == row {
            return Some(rows[k].1);
        }
        k += 1;
    }
    None
}

/// The sync overlay waits for a worktree to be picked.
pub open spec fn sync_picking(o: App) -> bool {
    o.active_action == ActiveAction::SyncTrees && !o.sync.loading && o.sync.results@.len() == 0
}

/// The delete overlay waits for worktrees to be checked.
pub open spec fn delete_picking(o: App) -> bool {
    o.active_action == ActiveAction::Delete && !o.delete.confirming && !o.delete.warn_current
        && !o.delete.loading
}

/// The copy-secrets overlay waits for a worktree to be picked.
pub open spec fn copy_picking(o: App) -> bool {
    o.active_action == ActiveAction::CopySecrets && o.copy_secrets.phase
        != CopySecretsPhase::ConfirmOverwrite && !o.copy_secrets.loading
}

/// Some overlay picks worktrees from the list, so the list takes the mouse.
pub open spec fn picking(o: App) -> bool {
    sync_picking(o) || delete_picking(o) || copy_picking(o)
}

/// What a click on a list row does.
pub open spec fn list_click_effect(o: App, n: App, row: u16) -> bool {
    match row_item(o.screen.item_rows@, row) {
        None => n == o,
        Some(idx) => if sync_picking(o) {
            if idx >= COMMAND_COUNT {
                n == (App {
                    sync: SyncState {
                        selected_idx: (idx - COMMAND_COUNT) as usize,
                        loading: true,
                        pending: true,
                        ..o.sync
                    },
                    loading_frame: 0,
                    ..o
                })
            } else {
                n == o
            }
        } else if delete_picking(o) {
            if idx >= COMMAND_COUNT && o.deletable_at(idx - COMMAND_COUNT) {
                toggle_effect(o, n, (idx - COMMAND_COUNT) as usize)
            } else {
                n == o
            }
        } else if copy_picking(o) {
            if idx >= COMMAND_COUNT {
                copy_select_effect(o, n, (idx - COMMAND_COUNT) as usize)
            } else {
                n == o
            }
        } else {
            activate_effect(App { selected_index: idx, ..o }, n)
        },
    }
}

/// What a scroll of the mouse wheel does: it moves the selection of whatever list is
/// active, like the arrow keys.
pub open spec fn scroll_effect(o: App, n: App, up: bool) -> bool {
    if sync_picking(o) {
        n == (App {
            sync: SyncState {
                selected_idx: if up {
                    dec(o.sync.selected_idx)
                } else {
                    inc_to(o.sync.selected_idx, last_index(o.worktrees@.len()))
                },
                ..o.sync
            },
            ..o
        })
    } else if copy_picking(o) {
        n == with_copy_selection(
            o,
            if up {
                dec(copy_selection(o))
            } else {
                inc_to(copy_selection(o), last_index(o.worktrees@.len()))
            },
        )
    } else if delete_picking(o) {
        let c = delete_cursor(o);
        let next = if up {
            deletable_before(o, c as int)
        } else {
            deletable_from(o, c + 1)
        };
        n == (App {
            overlay_index: match next {
                Some(i) => i as usize,
                None => c,
            },
            ..o
        })
    } else {
        let last = (total(o) - 1) as usize;
        n == (App {
            selected_index: if up {
                if o.selected_index == 0 {
                    last
                } else {
                    (o.selected_index - 1) as usize
                }
            } else if o.selected_index >= last {
                0
            } else {
                (o.selected_index + 1) as usize
            },
            ..o
        })
    }
}

/// What a mouse event does.
pub open spec fn mouse_effect(o: App, n: App, kind: MouseEventKind, column: u16, row: u16) -> bool {
    let left = kind == MouseEventKind::LeftDown;
    if left && o.active_action == ActiveAction::NewBranch && o.new_branch.confirm_existing is Some {
        new_branch_click_effect(o, n, column, row)
    } else if left && o.active_action == ActiveAction::Delete && (o.delete.confirming
        || o.delete.warn_current) {
        delete_click_effect(o, n, column, row)
    } else if left && o.active_action == ActiveAction::CopySecrets && o.copy_secrets.phase
        == CopySecretsPhase::ConfirmOverwrite {
        copy_click_effect(o, n, column, row)
    } else if o.active_action != ActiveAction::Idle && !picking(o) {
        n == o
    } else {
        match kind {
            MouseEventKind::Moved => n == (App {
                screen: ScreenState {
                    hovered_row: match row_item(o.screen.item_rows@, row) {
                        Some(idx) => if picking(o) && idx < COMMAND_COUNT {
                            None
                        } else {
                            Some(row)
                        },
                        None => None,
                    },
                    ..o.screen
                },
                ..o
            }),
            MouseEventKind::LeftDown => list_click_effect(o, n, row),
            MouseEventKind::ScrollUp => scroll_effect(o, n, true),
            MouseEventKind::ScrollDown => scroll_effect(o, n, false),
            MouseEventKind::Other => n == o,
        }
    }
}

fn deletable_from_idx(app: &App, from: usize) -> (r: Option<usize>)
    ensures
        crate::app::opt_index(r) == deletable_from(*app, from as int),
{
    let mut i = from;
    while i < app.worktrees.len()
        invariant
            from <= i,
            deletable_from(*app, from as int) == deletable_from(*app, i as int),
        decreases app.worktrees@.len() - i,
    {
        if app.is_deletable_worktree_idx(i) {
            return Some(i);
        }
        i += 1;
    }
    None
}

fn deletable_before_idx(app: &App, before: usize) -> (r: Option<usize>)
    ensures
        crate::app::opt_index(r) == deletable_before(*app, before as int),
{
    let mut i = before;
    while i > 0
        invariant
            i <= before,
            deletable_before(*app, before as int) == deletable_before(*app, i as int),
        decreases i,
    {
        if app.is_deletable_worktree_idx(i - 1) {
            return Some(i - 1);
        }
        i -= 1;
    }
    None
}

/// A click on a list row.
fn click_list(app: &mut App, row: u16)
    requires
        old(app).active_action == ActiveAction::Idle || picking(*old(app)),
        ascending(old(app).delete.checked@),
    ensures
        list_click_effect(*old(app), *final(app), row),
{
    let idx = match item_at_row(app, row) {
        Some(i) => i,
        None => {
            return;
        },
    };
    let sync_select = app.active_action == ActiveAction::SyncTrees && !app.sync.loading
        && app.sync.results.len() == 0;
    let delete_select = app.active_action == ActiveAction::Delete && !app.delete.confirming
        && !app.delete.warn_current && !app.delete.loading;
    let copy_select = app.active_action == ActiveAction::CopySecrets && app.copy_secrets.phase
        != CopySecretsPhase::ConfirmOverwrite && !app.copy_secrets.loading;
    if sync_select {
        if idx >= COMMAND_COUNT {
            app.sync.selected_idx = idx - COMMAND_COUNT;
            app.sync.loading = true;
            app.loading_frame = 0;
            app.sync.pending = true;
        }
    } else if delete_select {
        if idx >= COMMAND_COUNT {
            let wt_idx = idx - COMMAND_COUNT;
            if app.is_deletable_worktree_idx(wt_idx) {
                toggle_delete_selection(app, wt_idx);
            }
        }
    } else if copy_select {
        if idx >= COMMAND_COUNT {
            handle_copy_secrets_select(app, idx - COMMAND_COUNT);
        }
    } else {
        app.selected_index = idx;
        activate(app);
    }
}

/// A step up or down a list of `len` entries, stopping at its ends.
fn step(s: usize, up: bool, len: usize) -> (r: usize)
    ensures
        r == (if up {
            dec(s)
        } else {
            inc_to(s, last_index(len as nat))
        }),
{
    let last = if len > 0 {
        len - 1
    } else {
        0
    };
    if up {
        if s > 0 {
            s - 1
        } else {
            0
        }
    } else if s < last {
        s + 1
    } else {
        last
    }
}

fn scroll_sync(app: &mut App, up: bool)
    ensures
        *final(app) == (App {
            sync: SyncState {
                selected_idx: if up {
                    dec(old(app).sync.selected_idx)
                } else {
                    inc_to(old(app).sync.selected_idx, last_index(old(app).worktrees@.len()))
                },
                ..old(app).sync
            },
            ..*old(app)
        }),
{
    app.sync.selected_idx = step(app.sync.selected_idx, up, app.worktrees.len());
}

fn scroll_copy(app: &mut App, up: bool)
    ensures
        *final(app) == with_copy_selection(
            *old(app),
            if up {
                dec(copy_selection(*old(app)))
            } else {
                inc_to(copy_selection(*old(app)), last_index(old(app).worktrees@.len()))
            },
        ),
{
    let s = copy_selection_idx(app);
    let next = step(s, up, app.worktrees.len());
    set_copy_selection_idx(app, next);
}

fn scroll_delete(app: &mut App, up: bool)
    ensures
        ({
            let o = *old(app);
            let c = delete_cursor(o);
            let next = if up {
                deletable_before(o, c as int)
            } else {
                deletable_from(o, c + 1)
            };
            *final(app) == (App {
                overlay_index: match next {
                    Some(i) => i as usize,
                    None => c,
                },
                ..o
            })
        }),
{
    let c = delete_cursor_idx(app);
    let next = if up {
        deletable_before_idx(app, c)
    } else if c < app.worktrees.len() {
        deletable_from_idx(app, c + 1)
    } else {
        None
    };
    app.overlay_index = match next {
        Some(i) => i,
        None => c,
    };
}

fn scroll_main(app: &mut App, up: bool)
    requires
        old(app).inv(),
    ensures
        ({
            let o = *old(app);
            let last = (total(o) - 1) as usize;
            *final(app) == (App {
                selected_index: if up {
                    if o.selected_index == 0 {
                        last
                    } else {
                        (o.selected_index - 1) as usize
                    }
                } else if o.selected_index >= last {
                    0
                } else {
                    (o.selected_index + 1) as usize
                },
                ..o
            })
        }),
{
    let last = app.total_items() - 1;
    let s = app.selected_index;
    app.selected_index = if up {
        if s == 0 {
            last
        } else {
            s - 1
        }
    } else if s >= last {
        0
    } else {
        s + 1
    };
}

/// A turn of the mouse wheel.
fn scroll(app: &mut App, up: bool)
    requires
        old(app).inv(),
    ensures
        scroll_effect(*old(app), *final(app), up),
{
    let sync_select = app.active_action == ActiveAction::SyncTrees && !app.sync.loading
        && app.sync.results.len() == 0;
    let delete_select = app.active_action == ActiveAction::Delete && !app.delete.confirming
        && !app.delete.warn_current && !app.delete.loading;
    let copy_select = app.active_action == ActiveAction::CopySecrets && app.copy_secrets.phase
        != CopySecretsPhase::ConfirmOverwrite && !app.copy_secrets.loading;
    if sync_select {
        scroll_sync(app, up);
    } else if copy_select {
        scroll_copy(app, up);
    } else if delete_select {
        scroll_delete(app, up);
    } else {
        scroll_main(app, up);
    }
}

/// Handles a mouse event at a screen position: clicks answer the open question, pick
/// worktrees in the picking overlays or activate a row of the main list; the wheel moves
/// the selection; moving highlights the row under the pointer.
pub fn handle_mouse(app: &mut App, kind: MouseEventKind, column: u16, row: u16)
    requires
        ready(*old(app)),
    ensures
        mouse_effect(*old(app), *final(app), kind, column, row),
{
    let left = kind == MouseEventKind::LeftDown;
    if left && app.active_action == ActiveAction::NewBranch
        && app.new_branch.confirm_existing.is_some() {
        handle_new_branch_confirm_click(app, column, row);
        return;
    }
    if left && app.active_action == ActiveAction::Delete && (app.delete.confirming
        || app.delete.warn_current) {
        handle_delete_confirm_click(app, column, row);
        return;
    }
    if left && app.active_action == ActiveAction::CopySecrets && app.copy_secrets.phase
        == CopySecretsPhase::ConfirmOverwrite {
        handle_copy_secrets_confirm_click(app, column, row);
        return;
    }
    let sync_select = app.active_action == ActiveAction::SyncTrees && !app.sync.loading
        && app.sync.results.len() == 0;
    let delete_select = app.active_action == ActiveAction::Delete && !app.delete.confirming
        && !app.delete.warn_current && !app.delete.loading;
    let copy_select = app.active_action == ActiveAction::CopySecrets && app.copy_secrets.phase
        != CopySecretsPhase::ConfirmOverwrite && !app.copy_secrets.loading;
    let any_select = sync_select || delete_select || copy_select;
    if app.active_action != ActiveAction::Idle && !any_select {
        return;
    }
    match kind {
        MouseEventKind::Moved => {
            let target = match item_at_row(app, row) {
                Some(idx) => if any_select && idx < COMMAND_COUNT {
                    None
                } else {
                    Some(row)
                },
                None => None,
            };
            app.screen.hovered_row = target;
        },
        MouseEventKind::LeftDown => click_list(app, row),
        MouseEventKind::ScrollUp => scroll(app, true),
        MouseEventKind::ScrollDown => scroll(app, false),
        MouseEventKind::Other => {},
    }
}

} // verus!
