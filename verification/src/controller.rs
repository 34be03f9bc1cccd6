//! How the navigator reacts to keys, clicks and the results of background work.
//!
//! Each handler is a step of the navigator's state machine: it reads the state and an
//! event and changes the state. Work that needs git, the filesystem or the terminal is
//! requested through fields of `App` (a pending operation) and its outcome is handed
//! back through the `apply_*` functions.
use vstd::prelude::*;

use crate::app::{
    command_action, command_action_for_index, ConfigChange, ConfigSave, command_action_for_shortcut, command_key, removable, first_current, first_main, first_where, lemma_first_where, opt_index, selected_wt, App,
    CheckoutRemoteState, CloneState, ConsoleState, CopySecretsState, DeleteState, Field, NewBranchState,
    OptionsState, PendingConsoleOperation, RenameState, SyncState, COMMAND_COUNT,
};
use crate::input::{end_of, insert_at};
use crate::git::{
    checkout_branch_name, clone_dest, dest_from_url, normalize_checkout_remote_branch_input,
};
use crate::text::{
    all_digits, chars_of, decimal_value, has_prefix, is_blank, is_digit, owned, parse_u32, parsed_u64, push_str, str_eq,
    strip_prefix, trim, trim_seq, trim_start_char, trim_start_char_seq,
};
use crate::config::{is_runnable, PostCreateRequest, PostCreateScript, RepoConfig};
use crate::text_input;
use crate::cli::opt_chars;
use crate::text_input::key_effect;
use crate::text_input::{KeyCode, KeyModifiers};
use crate::types::{
    ActiveAction, CheckoutRemotePhase, CloneEvent, CopySecretsPhase, OptionsPhase, SyncPrEvent,
    SyncResult, Worktree,
};

verus! {

/// `x - 1`, stopping at zero.
pub open spec fn dec(x: usize) -> usize {
    if x > 0 {
        (x - 1) as usize
    } else {
        0
    }
}

/// `min(x + 1, max)`.
pub open spec fn inc_to(x: usize, max: usize) -> usize {
    if x < max {
        (x + 1) as usize
    } else {
        max
    }
}

/// The last index of a list of `len` entries (zero when empty).
pub open spec fn last_index(len: nat) -> usize {
    if len > 0 {
        (len - 1) as usize
    } else {
        0
    }
}

fn dec_exec(x: usize) -> (r: usize)
    ensures
        r == dec(x),
{
    if x > 0 {
        x - 1
    } else {
        0
    }
}

fn inc_to_exec(x: usize, max: usize) -> (r: usize)
    ensures
        r == inc_to(x, max),
{
    if x < max {
        x + 1
    } else {
        max
    }
}

fn last_index_exec(len: usize) -> (r: usize)
    ensures
        r == last_index(len as nat),
{
    if len > 0 {
        len - 1
    } else {
        0
    }
}

pub open spec fn is_up(code: KeyCode) -> bool {
    code == KeyCode::Up || code == KeyCode::Char('k')
}

pub open spec fn is_down(code: KeyCode) -> bool {
    code == KeyCode::Down || code == KeyCode::Char('j')
}

// ───────────────────────────── sync trees ─────────────────────────────

/// What a key does in the sync overlay.
pub open spec fn sync_trees_key_effect(o: App, n: App, code: KeyCode) -> bool {
    if o.sync.loading {
        n == o
    } else if o.sync.results@.len() > 0 {
        &&& n.active_action == ActiveAction::Idle
        &&& n.sync.results@.len() == 0
        &&& n.sync == (SyncState { results: n.sync.results, ..o.sync })
        &&& o.agree_except(&n, |f: Field| f == Field::ActiveAction || f == Field::Sync)
    } else if code == KeyCode::Esc {
        n == (App { active_action: ActiveAction::Idle, ..o })
    } else if is_up(code) {
        n == (App { sync: SyncState { selected_idx: dec(o.sync.selected_idx), ..o.sync }, ..o })
    } else if is_down(code) {
        n == (App {
            sync: SyncState {
                selected_idx: inc_to(o.sync.selected_idx, last_index(o.worktrees@.len())),
                ..o.sync
            },
            ..o
        })
    } else if code == KeyCode::Enter && o.worktrees@.len() > 0 {
        n == (App {
            loading_frame: 0,
            sync: SyncState { loading: true, pending: true, ..o.sync },
            ..o
        })
    } else {
        n == o
    }
}

/// Keys of the sync overlay: pick a worktree and start syncing it; once results are
/// shown any key closes the overlay.
pub fn handle_sync_trees_key(app: &mut App, code: KeyCode)
    ensures
        sync_trees_key_effect(*old(app), *final(app), code),
{
    if app.sync.loading {
        return;
    }
    if app.sync.results.len() > 0 {
        app.active_action = ActiveAction::Idle;
        app.sync.results = Vec::new();
        return;
    }
    match code {
        KeyCode::Esc => {
            app.active_action = ActiveAction::Idle;
        },
        KeyCode::Up | KeyCode::Char('k') => {
            app.sync.selected_idx = dec_exec(app.sync.selected_idx);
        },
        KeyCode::Down | KeyCode::Char('j') => {
            let max = last_index_exec(app.worktrees.len());
            app.sync.selected_idx = inc_to_exec(app.sync.selected_idx, max);
        },
        KeyCode::Enter => {
            if app.worktrees.len() > 0 {
                app.sync.loading = true;
                app.loading_frame = 0;
                app.sync.pending = true;
            }
        },
        _ => {},
    }
}

// ───────────────────────────── opening overlays ─────────────────────────────

/// `x` holds a message with the given text.
pub open spec fn err_is(x: Option<String>, m: Seq<char>) -> bool {
    x matches Some(e) && e@ == m
}

/// The state that opening an overlay starts from: nothing typed, no error, no
/// confirmation or rename in progress, no base branch chosen, the options editor closed.
/// The emptied text and target list are those of `n`.
pub open spec fn reset_for_overlay(o: App, n: App) -> App {
    App {
        overlay_index: 0,
        input_buffer: n.input_buffer,
        input_cursor: 0,
        overlay_error: None,
        new_branch: NewBranchState {
            use_existing: false,
            confirm_existing: None,
            confirm_yes: false,
            base: None,
            ..o.new_branch
        },
        delete: DeleteState {
            confirming: false,
            warn_current: false,
            confirm_targets: n.delete.confirm_targets,
            confirm_yes: false,
            redirect_path: None,
            ..o.delete
        },
        rename: RenameState { loading: false, target_idx: None, pending: None },
        options: OptionsState {
            phase: OptionsPhase::BrowsingScripts,
            edit_idx: None,
            ..o.options
        },
        ..o
    }
}

/// The worktree whose branch a new branch starts from: the selected one, else the
/// default one.
pub open spec fn base_worktree(o: App) -> Option<int> {
    match selected_wt(o) {
        Some(i) => Some(i),
        None => first_main(o.worktrees@),
    }
}

/// The worktree that the rename overlay renames: the selected one, else the current one.
pub open spec fn rename_target(o: App) -> Option<int> {
    match selected_wt(o) {
        Some(i) => Some(i),
        None => first_current(o.worktrees@),
    }
}

/// The first worktree that may be deleted.
pub open spec fn first_deletable(o: App) -> Option<int> {
    first_where(o.worktrees@, |w: Worktree| removable(w))
}

/// Where the delete overlay's cursor starts: on the selected worktree if it may be
/// deleted, else on the first one that may.
pub open spec fn initial_delete_cursor(o: App) -> Option<int> {
    match selected_wt(o) {
        Some(i) => if o.deletable_at(i) {
            Some(i)
        } else {
            first_deletable(o)
        },
        None => first_deletable(o),
    }
}

/// An optional index, zero when there is none.
pub open spec fn or_zero(x: Option<int>) -> usize {
    match x {
        Some(i) => i as usize,
        None => 0,
    }
}

/// What opening the copy-secrets overlay does: the source is picked first; the current
/// worktree is the proposed target.
pub open spec fn open_copy_effect(o: App, n: App) -> bool {
    let b = reset_for_overlay(o, n);
    n.input_buffer@.len() == 0 && n == (App {
        active_action: ActiveAction::CopySecrets,
        copy_secrets: CopySecretsState {
            phase: CopySecretsPhase::SelectSource,
            source_idx: None,
            target_idx: or_zero(first_current(o.worktrees@)),
            confirm_yes: true,
            ..o.copy_secrets
        },
        ..b
    })
}

/// What opening an overlay does.
pub open spec fn open_action_effect(o: App, n: App, action: ActiveAction) -> bool {
    let b = reset_for_overlay(o, n);
    &&& n.delete.confirm_targets@.len() == 0
    &&& match action {
        ActiveAction::NewBranch => n.input_buffer@.len() == 0 && n == (App {
            active_action: action,
            new_branch: NewBranchState {
                base: match base_worktree(o) {
                    Some(i) => Some(o.worktrees@[i].branch),
                    None => None,
                },
                ..b.new_branch
            },
            ..b
        }),
        ActiveAction::Rename => match rename_target(o) {
            None => {
                &&& n.input_buffer@.len() == 0
                &&& err_is(n.overlay_error, "No worktree available to rename."@)
                &&& n == (App {
                    active_action: ActiveAction::Idle,
                    overlay_error: n.overlay_error,
                    ..b
                })
            },
            Some(i) => if o.worktrees@[i].is_main {
                &&& n.input_buffer@.len() == 0
                &&& err_is(n.overlay_error, "The default worktree can't be renamed."@)
                &&& n == (App {
                    active_action: ActiveAction::Idle,
                    overlay_error: n.overlay_error,
                    ..b
                })
            } else {
                n == (App {
                    active_action: action,
                    rename: RenameState { target_idx: Some(i as usize), ..b.rename },
                    input_buffer: o.worktrees@[i].branch,
                    input_cursor: o.worktrees@[i].branch@.len() as usize,
                    loading_frame: 0,
                    ..b
                })
            },
        },
        ActiveAction::SyncTrees => {
            &&& n.input_buffer@.len() == 0
            &&& n.sync.results@.len() == 0
            &&& n == (App {
                active_action: action,
                loading_frame: 0,
                sync: SyncState {
                    results: n.sync.results,
                    loading: false,
                    pending: false,
                    fetch_ok: true,
                    selected_idx: or_zero(first_main(o.worktrees@)),
                    ..o.sync
                },
                ..b
            })
        },
        ActiveAction::SyncPr => {
            &&& n.input_buffer@.len() == 0
            &&& n.sync.pr_output@.len() == 0
            &&& n == (App {
                active_action: action,
                sync: SyncState { pr_loading: false, pr_output: n.sync.pr_output, ..o.sync },
                ..b
            })
        },
        ActiveAction::Delete => {
            &&& n.input_buffer@.len() == 0
            &&& n.delete.checked@.len() == 0
            &&& n == (App {
                active_action: action,
                overlay_index: or_zero(initial_delete_cursor(o)),
                delete: DeleteState { checked: n.delete.checked, ..b.delete },
                ..b
            })
        },
        ActiveAction::CopySecrets => open_copy_effect(o, n),
        ActiveAction::Options => n.input_buffer@.len() == 0 && n == (App {
            active_action: action,
            options: OptionsState {
                selected_idx: if o.options.selected_idx < last_index(
                    o.repo_config.post_create_scripts@.len(),
                ) {
                    o.options.selected_idx
                } else {
                    last_index(o.repo_config.post_create_scripts@.len())
                },
                ..b.options
            },
            ..b
        }),
        ActiveAction::CheckoutRemote => {
            &&& n.input_buffer@.len() == 0
            &&& n.checkout_remote.name@.len() == 0
            &&& n.checkout_remote.remotes@.len() == 0
            &&& n == (App {
                active_action: action,
                checkout_remote: CheckoutRemoteState {
                    name: n.checkout_remote.name,
                    remotes: n.checkout_remote.remotes,
                    pending: None,
                    phase: CheckoutRemotePhase::SelectRemote,
                    list_pending: true,
                    ..o.checkout_remote
                },
                ..b
            })
        },
        _ => n.input_buffer@.len() == 0 && n == (App { active_action: action, ..b }),
    }
}

/// An optional index as an index, zero when there is none.
fn or_zero_exec(x: Option<usize>) -> (r: usize)
    ensures
        r == or_zero(opt_index(x)),
{
    match x {
        Some(i) => i,
        None => 0,
    }
}

/// The delete overlay's starting cursor.
fn initial_delete_cursor_idx(app: &App) -> (r: Option<usize>)
    ensures
        opt_index(r) == initial_delete_cursor(*app),
{
    match app.selected_worktree_idx() {
        Some(i) => {
            if app.is_deletable_worktree_idx(i) {
                return Some(i);
            }
        },
        None => {},
    }
    app.first_deletable_worktree_idx()
}

/// Resets the overlay state (see `reset_for_overlay`).
fn reset_overlay(app: &mut App)
    ensures
        *final(app) == reset_for_overlay(*old(app), *final(app)),
        final(app).input_buffer@.len() == 0,
        final(app).delete.confirm_targets@.len() == 0,
{
    app.overlay_index = 0;
    app.input_buffer = String::new();
    app.input_cursor = 0;
    app.new_branch.use_existing = false;
    app.new_branch.confirm_existing = None;
    app.new_branch.confirm_yes = false;
    app.delete.confirming = false;
    app.delete.warn_current = false;
    app.delete.confirm_targets = Vec::new();
    app.delete.confirm_yes = false;
    app.delete.redirect_path = None;
    app.overlay_error = None;
    app.new_branch.base = None;
    app.rename.loading = false;
    app.rename.target_idx = None;
    app.rename.pending = None;
    app.options.phase = OptionsPhase::BrowsingScripts;
    app.options.edit_idx = None;
}

/// Picks the base branch of a new branch.
fn open_new_branch(app: &mut App)
    ensures
        *final(app) == (App {
            new_branch: NewBranchState {
                base: match base_worktree(*old(app)) {
                    Some(i) => Some(old(app).worktrees@[i].branch),
                    None => None,
                },
                ..old(app).new_branch
            },
            ..*old(app)
        }),
{
    let idx = match app.selected_worktree_idx() {
        Some(i) => Some(i),
        None => app.default_worktree_idx(),
    };
    app.new_branch.base = match idx {
        Some(i) => Some(app.worktrees[i].branch.clone()),
        None => None,
    };
}

/// Picks the worktree to rename and types its branch, or refuses.
fn open_rename(app: &mut App) -> (opened: bool)
    ensures
        opened == (rename_target(*old(app)) matches Some(i) && !old(app).worktrees@[i].is_main),
        match rename_target(*old(app)) {
            None => err_is(final(app).overlay_error, "No worktree available to rename."@)
                && *final(app) == (App { overlay_error: final(app).overlay_error, ..*old(app) }),
            Some(i) => if old(app).worktrees@[i].is_main {
                err_is(final(app).overlay_error, "The default worktree can't be renamed."@)
                    && *final(app) == (App { overlay_error: final(app).overlay_error, ..*old(app) })
            } else {
                *final(app) == (App {
                    rename: RenameState { target_idx: Some(i as usize), ..old(app).rename },
                    input_buffer: old(app).worktrees@[i].branch,
                    input_cursor: old(app).worktrees@[i].branch@.len() as usize,
                    loading_frame: 0,
                    ..*old(app)
                })
            },
        },
{
    let target = match app.selected_worktree_idx() {
        Some(i) => Some(i),
        None => app.current_worktree_idx(),
    };
    match target {
        None => {
            app.overlay_error = Some(owned("No worktree available to rename."));
            false
        },
        Some(i) => {
            if app.worktrees[i].is_main {
                app.overlay_error = Some(owned("The default worktree can't be renamed."));
                return false;
            }
            app.rename.target_idx = Some(i);
            app.input_buffer = app.worktrees[i].branch.clone();
            app.input_cursor = end_of(&app.input_buffer);
            app.loading_frame = 0;
            true
        },
    }
}

#[verifier::spinoff_prover]
fn open_new_branch_overlay(app: &mut App)
    ensures
        open_action_effect(*old(app), *final(app), ActiveAction::NewBranch),
{
    reset_overlay(app);
    open_new_branch(app);
    app.active_action = ActiveAction::NewBranch;
}

#[verifier::spinoff_prover]
fn open_rename_overlay(app: &mut App)
    ensures
        open_action_effect(*old(app), *final(app), ActiveAction::Rename),
{
    reset_overlay(app);
    if !open_rename(app) {
        app.active_action = ActiveAction::Idle;
        return;
    }
    app.active_action = ActiveAction::Rename;
}

#[verifier::spinoff_prover]
fn open_sync_trees_overlay(app: &mut App)
    ensures
        open_action_effect(*old(app), *final(app), ActiveAction::SyncTrees),
{
    reset_overlay(app);
    app.sync.results = Vec::new();
    app.sync.loading = false;
    app.sync.pending = false;
    app.sync.fetch_ok = true;
    app.loading_frame = 0;
    app.sync.selected_idx = or_zero_exec(app.default_worktree_idx());
    app.active_action = ActiveAction::SyncTrees;
}

#[verifier::spinoff_prover]
fn open_sync_pr_overlay(app: &mut App)
    ensures
        open_action_effect(*old(app), *final(app), ActiveAction::SyncPr),
{
    reset_overlay(app);
    app.sync.pr_loading = false;
    app.sync.pr_output = Vec::new();
    app.active_action = ActiveAction::SyncPr;
}

#[verifier::spinoff_prover]
fn open_delete_overlay(app: &mut App)
    ensures
        open_action_effect(*old(app), *final(app), ActiveAction::Delete),
{
    let start = or_zero_exec(initial_delete_cursor_idx(app));
    reset_overlay(app);
    app.delete.checked = Vec::new();
    app.overlay_index = start;
    app.active_action = ActiveAction::Delete;
}

#[verifier::spinoff_prover]
fn open_copy_secrets_overlay(app: &mut App)
    ensures
        open_copy_effect(*old(app), *final(app)),
        final(app).delete.confirm_targets@.len() == 0,
{
    let target = or_zero_exec(app.current_worktree_idx());
    reset_overlay(app);
    app.copy_secrets = CopySecretsState {
        phase: CopySecretsPhase::SelectSource,
        source_idx: None,
        target_idx: target,
        confirm_yes: true,
        loading: app.copy_secrets.loading,
        pending: app.copy_secrets.pending,
    };
    app.active_action = ActiveAction::CopySecrets;
}

#[verifier::spinoff_prover]
fn open_options_overlay(app: &mut App)
    ensures
        open_action_effect(*old(app), *final(app), ActiveAction::Options),
{
    reset_overlay(app);
    let max_idx = last_index_exec(app.repo_config.post_create_scripts.len());
    if app.options.selected_idx >= max_idx {
        app.options.selected_idx = max_idx;
    }
    app.active_action = ActiveAction::Options;
}

#[verifier::spinoff_prover]
fn open_checkout_remote_overlay(app: &mut App)
    ensures
        open_action_effect(*old(app), *final(app), ActiveAction::CheckoutRemote),
{
    reset_overlay(app);
    app.checkout_remote.name = String::new();
    app.checkout_remote.pending = None;
    app.checkout_remote.remotes = Vec::new();
    app.checkout_remote.phase = CheckoutRemotePhase::SelectRemote;
    app.checkout_remote.list_pending = true;
    app.active_action = ActiveAction::CheckoutRemote;
}

#[verifier::spinoff_prover]
fn open_plain_overlay(app: &mut App, action: ActiveAction)
    requires
        action == ActiveAction::Idle || action == ActiveAction::CloneRepo,
    ensures
        open_action_effect(*old(app), *final(app), action),
{
    reset_overlay(app);
    app.active_action = action;
}

/// Opens an overlay (or closes them all, for `Idle`): resets the overlay state and sets
/// up what the chosen one starts with. The checkout-remote overlay asks for the list of
/// remotes (`checkout_remote.list_pending`); `apply_remote_list` hands it in.
pub fn open_action(app: &mut App, action: ActiveAction)
    ensures
        open_action_effect(*old(app), *final(app), action),
{
    match action {
        ActiveAction::NewBranch => open_new_branch_overlay(app),
        ActiveAction::Rename => open_rename_overlay(app),
        ActiveAction::SyncTrees => open_sync_trees_overlay(app),
        ActiveAction::SyncPr => open_sync_pr_overlay(app),
        ActiveAction::Delete => open_delete_overlay(app),
        ActiveAction::CopySecrets => open_copy_secrets_overlay(app),
        ActiveAction::Options => open_options_overlay(app),
        ActiveAction::CheckoutRemote => open_checkout_remote_overlay(app),
        _ => open_plain_overlay(app, action),
    }
}

/// What the list of remotes does to the checkout-remote overlay.
pub open spec fn remote_list_effect(o: App, n: App, remotes: Seq<String>) -> bool {
    if remotes.len() == 0 {
        &&& n.checkout_remote.remotes@.len() == 0
        &&& err_is(n.overlay_error, "No remotes configured for this repository."@)
        &&& n == (App {
            overlay_error: n.overlay_error,
            checkout_remote: CheckoutRemoteState {
                remotes: n.checkout_remote.remotes,
                phase: CheckoutRemotePhase::SelectRemote,
                list_pending: false,
                ..o.checkout_remote
            },
            ..o
        })
    } else if remotes.len() == 1 {
        &&& n.checkout_remote.remotes@ == remotes
        &&& n == (App {
            checkout_remote: CheckoutRemoteState {
                name: remotes[0],
                remotes: n.checkout_remote.remotes,
                phase: CheckoutRemotePhase::FetchingRemote,
                list_pending: false,
                ..o.checkout_remote
            },
            console: ConsoleState {
                pending_operation: Some(PendingConsoleOperation::FetchRemote { remote: remotes[0] }),
                ..o.console
            },
            loading_frame: 0,
            ..o
        })
    } else {
        &&& n.checkout_remote.remotes@ == remotes
        &&& n == (App {
            checkout_remote: CheckoutRemoteState {
                remotes: n.checkout_remote.remotes,
                phase: CheckoutRemotePhase::SelectRemote,
                list_pending: false,
                ..o.checkout_remote
            },
            ..o
        })
    }
}

/// Hands the remotes of the repository to the checkout-remote overlay: with one remote
/// its fetch starts right away, with several the user picks one.
pub fn apply_remote_list(app: &mut App, remotes: Vec<String>)
    ensures
        remote_list_effect(*old(app), *final(app), remotes@),
{
    app.checkout_remote.list_pending = false;
    if remotes.len() == 0 {
        app.checkout_remote.remotes = Vec::new();
        app.checkout_remote.phase = CheckoutRemotePhase::SelectRemote;
        app.overlay_error = Some(owned("No remotes configured for this repository."));
    } else if remotes.len() == 1 {
        let name = remotes[0].clone();
        app.checkout_remote.name = name.clone();
        app.checkout_remote.remotes = remotes;
        app.checkout_remote.phase = CheckoutRemotePhase::FetchingRemote;
        app.console.pending_operation = Some(PendingConsoleOperation::FetchRemote { remote: name });
        app.loading_frame = 0;
    } else {
        app.checkout_remote.remotes = remotes;
        app.checkout_remote.phase = CheckoutRemotePhase::SelectRemote;
    }
}

// ───────────────────────────── the main list ─────────────────────────────

/// The number of rows of the main list.
pub open spec fn total(o: App) -> int {
    COMMAND_COUNT + o.worktrees@.len()
}

/// What Enter (or a click) on the selected row does: a command row opens its overlay, a
/// worktree row leaves the navigator for that worktree.
pub open spec fn activate_effect(o: App, n: App) -> bool {
    let idx = o.selected_index;
    if idx < COMMAND_COUNT {
        open_action_effect(o, n, command_action(idx as int))
    } else if idx - COMMAND_COUNT < o.worktrees@.len() {
        n == (App {
            exit_path: Some(o.worktrees@[idx - COMMAND_COUNT].path),
            should_quit: true,
            ..o
        })
    } else {
        n == o
    }
}

/// Activates the selected row.
pub fn activate(app: &mut App)
    ensures
        activate_effect(*old(app), *final(app)),
{
    let idx = app.selected_index;
    if idx < COMMAND_COUNT {
        match command_action_for_index(idx) {
            Some(action) => open_action(app, action),
            None => {},
        }
    } else {
        let wt_idx = idx - COMMAND_COUNT;
        if wt_idx < app.worktrees.len() {
            app.exit_path = Some(app.worktrees[wt_idx].path.clone());
            app.should_quit = true;
        }
    }
}

/// The shortcut a key stands for, if any.
pub open spec fn shortcut_of(c: char) -> Option<ActiveAction> {
    if exists|i: int| 0 <= i < COMMAND_COUNT && command_key(i) == c {
        Some(command_action(choose|i: int| 0 <= i < COMMAND_COUNT && command_key(i) == c))
    } else {
        None
    }
}

/// What a key does on the main list.
pub open spec fn nav_key_effect(o: App, n: App, code: KeyCode, m: KeyModifiers) -> bool {
    let last = (total(o) - 1) as usize;
    if code == KeyCode::Char('q') || code == KeyCode::Esc {
        n == (App { should_quit: true, ..o })
    } else if is_up(code) && m.control {
        n == (App {
            selected_index: if COMMAND_COUNT < last {
                COMMAND_COUNT
            } else {
                last
            },
            ..o
        })
    } else if is_down(code) && m.control {
        n == (App { selected_index: last, ..o })
    } else if is_up(code) {
        n == (App {
            selected_index: if o.selected_index == 0 {
                last
            } else {
                (o.selected_index - 1) as usize
            },
            ..o
        })
    } else if is_down(code) {
        n == (App {
            selected_index: if o.selected_index >= last {
                0
            } else {
                (o.selected_index + 1) as usize
            },
            ..o
        })
    } else if code is Char {
        match shortcut_of(code->0) {
            Some(action) => open_action_effect(o, n, action),
            None => n == o,
        }
    } else if code == KeyCode::Enter {
        activate_effect(o, n)
    } else {
        n == o
    }
}

/// On the main list, Up (or `k`) without Control moves the selection one row up, and
/// from the first row wraps to the last; Down (or `j`) without Control moves it one row
/// down, and from the last row wraps to the first. Nothing else changes.
pub proof fn lemma_nav_steps_one_row(o: App, n: App, code: KeyCode, m: KeyModifiers)
    requires
        !m.control,
        code == KeyCode::Up || code == KeyCode::Char('k') || code == KeyCode::Down
            || code == KeyCode::Char('j'),
        o.inv(),
        nav_key_effect(o, n, code, m),
    ensures
        n == (App { selected_index: n.selected_index, ..o }),
        code == KeyCode::Up || code == KeyCode::Char('k') ==> n.selected_index == (if o.selected_index
            > 0 {
            o.selected_index - 1
        } else {
            total(o) - 1
        }),
        code == KeyCode::Down || code == KeyCode::Char('j') ==> n.selected_index == (if o.selected_index
            + 1 < total(o) {
            o.selected_index + 1
        } else {
            0
        }),
{
}

/// The key that the shortcut of one command matches.
proof fn lemma_shortcut(c: char, r: Option<ActiveAction>)
    requires
        (exists|i: int| 0 <= i < COMMAND_COUNT && command_key(i) == c) ==> (exists|i: int|
            0 <= i < COMMAND_COUNT && command_key(i) == c && r == Some(command_action(i))),
        (forall|i: int| 0 <= i < COMMAND_COUNT ==> command_key(i) != c) ==> r is None,
    ensures
        r == shortcut_of(c),
{
    if exists|i: int| 0 <= i < COMMAND_COUNT && command_key(i) == c {
        let k = choose|i: int| 0 <= i < COMMAND_COUNT && command_key(i) == c;
        let j = choose|i: int|
            0 <= i < COMMAND_COUNT && command_key(i) == c && r == Some(command_action(i));
        assert(k == j) by {
            assert(command_key(0) == 'b' && command_key(1) == 'm' && command_key(2) == 'p'
                && command_key(3) == 'd' && command_key(4) == 's' && command_key(5) == 'c'
                && command_key(6) == 'o' && command_key(7) == 'r');
        }
    }
}

/// Keys of the main list: move the selection (wrapping around), jump with Control,
/// open a command by its shortcut, activate the selected row, or quit.
pub fn handle_nav_key(app: &mut App, code: KeyCode, modifiers: KeyModifiers)
    requires
        old(app).inv(),
    ensures
        nav_key_effect(*old(app), *final(app), code, modifiers),
{
    let ctrl = modifiers.control;
    let last = app.total_items() - 1;
    match code {
        KeyCode::Char('q') | KeyCode::Esc => {
            app.should_quit = true;
        },
        KeyCode::Up | KeyCode::Char('k') => {
            if ctrl {
                app.selected_index = if COMMAND_COUNT < last {
                    COMMAND_COUNT
                } else {
                    last
                };
            } else if app.selected_index == 0 {
                app.selected_index = last;
            } else {
                app.selected_index = app.selected_index - 1;
            }
        },
        KeyCode::Down | KeyCode::Char('j') => {
            if ctrl {
                app.selected_index = last;
            } else if app.selected_index >= last {
                app.selected_index = 0;
            } else {
                app.selected_index = app.selected_index + 1;
            }
        },
        KeyCode::Char(c) => {
            let found = command_action_for_shortcut(c);
            proof {
                lemma_shortcut(c, found);
            }
            match found {
                Some(action) => open_action(app, action),
                None => {},
            }
        },
        KeyCode::Enter => activate(app),
        _ => {},
    }
}

// ───────────────────────────── text overlays ─────────────────────────────

/// The text field after an editing key (any key but Esc and Enter), the rest unchanged.
pub open spec fn edited(o: App, n: App, code: KeyCode, m: KeyModifiers) -> bool {
    let e = key_effect(code, m, o.input_buffer@, o.input_cursor);
    n.input_buffer@ == e.1 && n == (App {
        input_buffer: n.input_buffer,
        input_cursor: e.2 as usize,
        ..o
    })
}

/// Applies an editing key to the text field.
fn edit_text(app: &mut App, code: KeyCode, modifiers: KeyModifiers)
    requires
        old(app).inv(),
        code != KeyCode::Esc,
        code != KeyCode::Enter,
    ensures
        edited(*old(app), *final(app), code, modifiers),
{
    let _ = text_input::handle_key(app, code, modifiers);
}

pub open spec fn is_left_key(code: KeyCode) -> bool {
    code == KeyCode::Left || code == KeyCode::Up || code == KeyCode::Char('h') || code
        == KeyCode::Char('k')
}

pub open spec fn is_right_key(code: KeyCode) -> bool {
    code == KeyCode::Right || code == KeyCode::Down || code == KeyCode::Char('j') || code
        == KeyCode::Char('l')
}

pub open spec fn is_yes_key(code: KeyCode) -> bool {
    code == KeyCode::Char('y') || code == KeyCode::Char('Y')
}

pub open spec fn is_no_key(code: KeyCode) -> bool {
    code == KeyCode::Char('n') || code == KeyCode::Char('N') || code == KeyCode::Esc
}

/// What answering the "use the existing branch?" question does.
pub open spec fn finish_existing_effect(o: App, n: App, confirmed: bool) -> bool {
    if !confirmed {
        n == (App {
            new_branch: NewBranchState { use_existing: false, confirm_existing: None, ..o.new_branch },
            ..o
        })
    } else {
        match o.new_branch.confirm_existing {
            Some(b) => n == (App {
                new_branch: NewBranchState {
                    confirm_existing: None,
                    use_existing: true,
                    loading: true,
                    pending: Some(b),
                    ..o.new_branch
                },
                overlay_error: None,
                ..o
            }),
            None => n == (App {
                new_branch: NewBranchState { confirm_existing: None, ..o.new_branch },
                ..o
            }),
        }
    }
}

/// Answers the question whether to give the existing branch a worktree.
pub fn finish_new_branch_existing_confirmation(app: &mut App, confirmed: bool)
    ensures
        finish_existing_effect(*old(app), *final(app), confirmed),
{
    let branch = app.new_branch.confirm_existing.take();
    if !confirmed {
        app.new_branch.use_existing = false;
        return;
    }
    match branch {
        Some(b) => {
            app.new_branch.use_existing = true;
            app.new_branch.loading = true;
            app.new_branch.pending = Some(b);
            app.overlay_error = None;
        },
        None => {},
    }
}

/// What a key does in the new-branch overlay.
pub open spec fn new_branch_key_effect(o: App, n: App, code: KeyCode, m: KeyModifiers) -> bool {
    if o.new_branch.loading {
        n == o
    } else if o.new_branch.confirm_existing is Some {
        if is_left_key(code) {
            n == (App { new_branch: NewBranchState { confirm_yes: true, ..o.new_branch }, ..o })
        } else if is_right_key(code) {
            n == (App { new_branch: NewBranchState { confirm_yes: false, ..o.new_branch }, ..o })
        } else if is_yes_key(code) {
            finish_existing_effect(
                App { new_branch: NewBranchState { confirm_yes: true, ..o.new_branch }, ..o },
                n,
                true,
            )
        } else if is_no_key(code) {
            finish_existing_effect(
                App { new_branch: NewBranchState { confirm_yes: false, ..o.new_branch }, ..o },
                n,
                false,
            )
        } else if code == KeyCode::Enter {
            finish_existing_effect(o, n, o.new_branch.confirm_yes)
        } else {
            n == o
        }
    } else if code == KeyCode::Esc {
        n.input_buffer@.len() == 0 && n == (App {
            active_action: ActiveAction::Idle,
            input_buffer: n.input_buffer,
            input_cursor: 0,
            overlay_error: None,
            ..o
        })
    } else if code == KeyCode::Enter {
        let branch = trim_seq(o.input_buffer@);
        if branch.len() == 0 {
            n == o
        } else {
            &&& n.new_branch.check_pending matches Some(b) && b@ == branch
            &&& n == (App {
                new_branch: NewBranchState {
                    check_pending: n.new_branch.check_pending,
                    ..o.new_branch
                },
                ..o
            })
        }
    } else {
        edited(o, n, code, m)
    }
}

/// Keys of the new-branch overlay: type a branch name and submit it, which asks whether
/// the branch exists (`new_branch.check_pending`, answered by `apply_branch_check`); or
/// answer whether to use an existing branch.
pub fn handle_new_branch_key(app: &mut App, code: KeyCode, modifiers: KeyModifiers)
    requires
        old(app).inv(),
    ensures
        new_branch_key_effect(*old(app), *final(app), code, modifiers),
{
    if app.new_branch.loading {
        return;
    }
    if app.new_branch.confirm_existing.is_some() {
        match code {
            KeyCode::Left | KeyCode::Up | KeyCode::Char('h') | KeyCode::Char('k') => {
                app.new_branch.confirm_yes = true;
            },
            KeyCode::Right | KeyCode::Down | KeyCode::Char('j') | KeyCode::Char('l') => {
                app.new_branch.confirm_yes = false;
            },
            KeyCode::Char('y') | KeyCode::Char('Y') => {
                app.new_branch.confirm_yes = true;
                finish_new_branch_existing_confirmation(app, true);
            },
            KeyCode::Char('n') | KeyCode::Char('N') | KeyCode::Esc => {
                app.new_branch.confirm_yes = false;
                finish_new_branch_existing_confirmation(app, false);
            },
            KeyCode::Enter => {
                let yes = app.new_branch.confirm_yes;
                finish_new_branch_existing_confirmation(app, yes);
            },
            _ => {},
        }
        return;
    }
    match code {
        KeyCode::Esc => {
            app.active_action = ActiveAction::Idle;
            app.input_buffer = String::new();
            app.input_cursor = 0;
            app.overlay_error = None;
        },
        KeyCode::Enter => {
            let branch = trim(app.input_buffer.as_str());
            if branch.as_str().is_empty() {
                return;
            }
            app.new_branch.check_pending = Some(branch);
        },
        _ => edit_text(app, code, modifiers),
    }
}

/// What the answer to "does the branch exist?" does.
pub open spec fn branch_check_effect(o: App, n: App, exists: Result<bool, String>) -> bool {
    match o.new_branch.check_pending {
        None => n == o,
        Some(b) => match exists {
            Ok(true) => n == (App {
                overlay_error: None,
                new_branch: NewBranchState {
                    check_pending: None,
                    confirm_existing: Some(b),
                    confirm_yes: false,
                    ..o.new_branch
                },
                ..o
            }),
            Ok(false) => n == (App {
                overlay_error: None,
                new_branch: NewBranchState {
                    check_pending: None,
                    loading: true,
                    pending: Some(b),
                    ..o.new_branch
                },
                ..o
            }),
            Err(e) => {
                &&& err_is(n.overlay_error, "Failed to inspect branch: "@ + e@)
                &&& n == (App {
                    overlay_error: n.overlay_error,
                    new_branch: NewBranchState { check_pending: None, ..o.new_branch },
                    ..o
                })
            },
        },
    }
}

/// Hands in whether the submitted branch exists: an existing branch asks the user
/// whether to use it, a new one is created, a failed check is shown.
pub fn apply_branch_check(app: &mut App, exists: Result<bool, String>)
    ensures
        branch_check_effect(*old(app), *final(app), exists),
{
    let branch = match app.new_branch.check_pending.take() {
        Some(b) => b,
        None => {
            return;
        },
    };
    match exists {
        Ok(true) => {
            app.overlay_error = None;
            app.new_branch.confirm_existing = Some(branch);
            app.new_branch.confirm_yes = false;
        },
        Ok(false) => {
            app.overlay_error = None;
            app.new_branch.loading = true;
            app.new_branch.pending = Some(branch);
        },
        Err(e) => {
            let mut m = owned("Failed to inspect branch: ");
            push_str(&mut m, e.as_str());
            app.overlay_error = Some(m);
        },
    }
}

/// Whether a worktree other than `skip` has the branch `b`.
pub open spec fn branch_taken(ws: Seq<Worktree>, b: Seq<char>, skip: int) -> bool {
    exists|j: int| 0 <= j < ws.len() && j != skip && ws[j].branch@ == b
}

fn branch_taken_exec(ws: &Vec<Worktree>, b: &str, skip: usize) -> (r: bool)
    ensures
        r == branch_taken(ws@, b@, skip as int),
{
    let mut j: usize = 0;
    while j < ws.len()
        invariant
            j <= ws@.len(),
            forall|k: int| 0 <= k < j && k != skip ==> ws@[k].branch@ != b@,
        decreases ws@.len() - j,
    {
        if j != skip && str_eq(ws[j].branch.as_str(), b) {
            return true;
        }
        j += 1;
    }
    false
}

/// What a key does in the rename overlay.
pub open spec fn rename_key_effect(o: App, n: App, code: KeyCode, m: KeyModifiers) -> bool {
    if o.rename.loading {
        n == o
    } else if code == KeyCode::Esc {
        n.input_buffer@.len() == 0 && n == (App {
            active_action: ActiveAction::Idle,
            rename: RenameState { target_idx: None, pending: None, ..o.rename },
            overlay_error: None,
            input_buffer: n.input_buffer,
            input_cursor: 0,
            ..o
        })
    } else if code == KeyCode::Enter {
        let branch = trim_seq(o.input_buffer@);
        match o.rename.target_idx {
            Some(t) if t < o.worktrees@.len() => if branch.len() == 0 {
                n == o
            } else if branch_taken(o.worktrees@, branch, t as int) {
                err_is(n.overlay_error, "'"@ + branch + "' is already checked out."@) && n == (App {
                    overlay_error: n.overlay_error,
                    ..o
                })
            } else {
                &&& n.rename.pending matches Some((w, b)) && w == o.worktrees@[t as int] && b@
                    == branch
                &&& n == (App {
                    overlay_error: None,
                    loading_frame: 0,
                    rename: RenameState { loading: true, pending: n.rename.pending, ..o.rename },
                    ..o
                })
            },
            _ => err_is(n.overlay_error, "No worktree selected for rename."@) && n == (App {
                overlay_error: n.overlay_error,
                ..o
            }),
        }
    } else {
        edited(o, n, code, m)
    }
}

/// Keys of the rename overlay: type the new branch name of the chosen worktree and
/// submit it; the rename waits in `rename.pending`.
pub fn handle_rename_key(app: &mut App, code: KeyCode, modifiers: KeyModifiers)
    requires
        old(app).inv(),
    ensures
        rename_key_effect(*old(app), *final(app), code, modifiers),
{
    if app.rename.loading {
        return;
    }
    match code {
        KeyCode::Esc => {
            app.active_action = ActiveAction::Idle;
            app.rename.target_idx = None;
            app.rename.pending = None;
            app.overlay_error = None;
            app.input_buffer = String::new();
            app.input_cursor = 0;
        },
        KeyCode::Enter => {
            let branch = trim(app.input_buffer.as_str());
            let t = match app.rename.target_idx {
                Some(t) => t,
                None => {
                    app.overlay_error = Some(owned("No worktree selected for rename."));
                    return;
                },
            };
            if t >= app.worktrees.len() {
                app.overlay_error = Some(owned("No worktree selected for rename."));
                return;
            }
            if branch.as_str().is_empty() {
                return;
            }
            if branch_taken_exec(&app.worktrees, branch.as_str(), t) {
                let mut m = owned("'");
                push_str(&mut m, branch.as_str());
                push_str(&mut m, "' is already checked out.");
                app.overlay_error = Some(m);
                return;
            }
            let w = app.worktrees[t].duplicate();
            app.overlay_error = None;
            app.loading_frame = 0;
            app.rename.loading = true;
            app.rename.pending = Some((w, branch));
        },
        _ => edit_text(app, code, modifiers),
    }
}

/// The pull-request number typed (after trimming and `#`s), if it is one.
pub open spec fn typed_pr_number(text: Seq<char>) -> Option<u32> {
    let pr = trim_start_char_seq(trim_seq(text), '#');
    if pr.len() > 0 && all_digits(pr) && decimal_value(pr) <= u32::MAX {
        Some(decimal_value(pr) as u32)
    } else {
        None
    }
}

/// What a key does in the pull-request overlay.
pub open spec fn sync_pr_key_effect(o: App, n: App, code: KeyCode, m: KeyModifiers) -> bool {
    if o.sync.pr_loading {
        n == o
    } else if code == KeyCode::Esc {
        n.input_buffer@.len() == 0 && n == (App {
            active_action: ActiveAction::Idle,
            overlay_error: None,
            input_buffer: n.input_buffer,
            input_cursor: 0,
            ..o
        })
    } else if code == KeyCode::Enter {
        match typed_pr_number(o.input_buffer@) {
            None => err_is(n.overlay_error, "Invalid PR number. Use #123 or 123."@) && n == (App {
                overlay_error: n.overlay_error,
                ..o
            }),
            Some(pr) => n.sync.pr_output@.len() == 0 && n == (App {
                overlay_error: None,
                sync: SyncState { pr_loading: true, pr_output: n.sync.pr_output, ..o.sync },
                loading_frame: 0,
                console: ConsoleState {
                    pending_operation: Some(PendingConsoleOperation::SyncPr { pr_number: pr }),
                    ..o.console
                },
                ..o
            }),
        }
    } else {
        edited(o, n, code, m)
    }
}

/// A run of decimal digits reads as the number it writes, with or without a leading
/// `#`.
proof fn lemma_typed_digits(d: Seq<char>)
    requires
        d.len() > 0,
        all_digits(d),
        decimal_value(d) <= u32::MAX,
    ensures
        typed_pr_number(d) == Some(decimal_value(d) as u32),
        typed_pr_number(seq!['#'] + d) == Some(decimal_value(d) as u32),
{
    let h = seq!['#'] + d;
    assert(is_digit(d[0]) && is_digit(d.last()));
    assert(trim_seq(d) == d);
    assert(h[0] == '#' && h.last() == d.last());
    assert(trim_seq(h) == h);
    assert(trim_start_char_seq(d, '#') == d);
    assert(h.drop_first() =~= d);
    assert(trim_start_char_seq(h, '#') == d);
}

/// Submitting a pull-request number in the overlay asks the console to check out that
/// pull request: the digits `d` alone and `#` followed by `d` both queue the same
/// operation, start loading and clear the overlay's error.
pub proof fn lemma_sync_pr_accepts_number(
    o: App,
    n: App,
    m: KeyModifiers,
    d: Seq<char>,
)
    requires
        !o.sync.pr_loading,
        d.len() > 0,
        all_digits(d),
        decimal_value(d) <= u32::MAX,
        o.input_buffer@ == d || o.input_buffer@ == seq!['#'] + d,
        sync_pr_key_effect(o, n, KeyCode::Enter, m),
    ensures
        n.console.pending_operation == Some(
            PendingConsoleOperation::SyncPr { pr_number: decimal_value(d) as u32 },
        ),
        n.sync.pr_loading,
        n.overlay_error is None,
{
    lemma_typed_digits(d);
}

/// The digits-only number in `s`, if it fits 32 bits.
fn digits_u32(s: &str) -> (r: Option<u32>)
    ensures
        r matches Some(n) ==> s@.len() > 0 && all_digits(s@) && decimal_value(s@) == n,
        r is None ==> !(s@.len() > 0 && all_digits(s@) && decimal_value(s@) <= u32::MAX),
{
    let v = chars_of(s);
    let mut i: usize = 0;
    while i < v.len()
        invariant
            i <= v.len(),
            v@ == s@,
            forall|j: int| 0 <= j < i ==> is_digit(#[trigger] v@[j]),
        decreases v.len() - i,
    {
        if v[i] < '0' || v[i] > '9' {
            assert(!is_digit(s@[i as int]));
            return None;
        }
        i += 1;
    }
    if v.len() == 0 {
        return None;
    }
    let r = parse_u32(s);
    proof {
        assert(s@.len() > 0 && s@[0] != '+') by {
            assert(is_digit(v@[0]));
        }
    }
    r
}

/// Keys of the pull-request overlay: type a number (`#123` or `123`) and submit it; the
/// checkout runs on the console (`console.pending_operation`).
pub fn handle_sync_pr_key(app: &mut App, code: KeyCode, modifiers: KeyModifiers)
    requires
        old(app).inv(),
    ensures
        sync_pr_key_effect(*old(app), *final(app), code, modifiers),
{
    if app.sync.pr_loading {
        return;
    }
    match code {
        KeyCode::Esc => {
            app.active_action = ActiveAction::Idle;
            app.overlay_error = None;
            app.input_buffer = String::new();
            app.input_cursor = 0;
        },
        KeyCode::Enter => {
            let raw = trim(app.input_buffer.as_str());
            let pr_input = trim_start_char(raw.as_str(), '#');
            match digits_u32(pr_input.as_str()) {
                None => {
                    app.overlay_error = Some(owned("Invalid PR number. Use #123 or 123."));
                },
                Some(pr_number) => {
                    app.overlay_error = None;
                    app.sync.pr_loading = true;
                    app.sync.pr_output = Vec::new();
                    app.loading_frame = 0;
                    app.console.pending_operation = Some(
                        PendingConsoleOperation::SyncPr { pr_number },
                    );
                },
            }
        },
        _ => edit_text(app, code, modifiers),
    }
}

// ───────────────────────────── clone flow ─────────────────────────────

/// What a key does in the clone flow.
pub open spec fn clone_key_effect(o: App, n: App, code: KeyCode, m: KeyModifiers) -> bool {
    if o.clone.loading {
        n == o
    } else if code == KeyCode::Esc {
        if o.clone.step == 1 {
            n == (App {
                clone: CloneState { step: 0, error: None, ..o.clone },
                input_buffer: o.clone.url,
                input_cursor: o.clone.url@.len() as usize,
                ..o
            })
        } else if o.no_repo {
            n == (App { should_quit: true, ..o })
        } else {
            n.input_buffer@.len() == 0 && n == (App {
                active_action: ActiveAction::Idle,
                clone: CloneState { error: None, ..o.clone },
                input_buffer: n.input_buffer,
                input_cursor: 0,
                ..o
            })
        }
    } else if code == KeyCode::Enter {
        let input = trim_seq(o.input_buffer@);
        if input.len() == 0 {
            n == o
        } else if o.clone.step == 0 {
            let dest = clone_dest(input, o.repo_root@);
            &&& n.clone.url@ == input
            &&& n.input_buffer@ == dest
            &&& n == (App {
                clone: CloneState { url: n.clone.url, step: 1, error: None, ..o.clone },
                input_buffer: n.input_buffer,
                input_cursor: dest.len() as usize,
                ..o
            })
        } else {
            &&& n.console.pending_operation matches Some(
                PendingConsoleOperation::CloneRepo { url, dest },
            ) && url == o.clone.url && dest@ == input
            &&& n == (App {
                clone: CloneState { loading: true, error: None, ..o.clone },
                loading_frame: 0,
                console: ConsoleState {
                    pending_operation: n.console.pending_operation,
                    ..o.console
                },
                ..o
            })
        }
    } else {
        edited(o, n, code, m)
    }
}

/// Keys of the clone flow: type the source, then the destination (proposed from the
/// source), then the clone runs on the console (`console.pending_operation`). Esc steps
/// back, or leaves (quitting when there is no repository to go back to).
pub fn handle_clone_key(app: &mut App, code: KeyCode, modifiers: KeyModifiers)
    requires
        old(app).inv(),
    ensures
        clone_key_effect(*old(app), *final(app), code, modifiers),
{
    if app.clone.loading {
        return;
    }
    match code {
        KeyCode::Esc => {
            if app.clone.step == 1 {
                app.clone.step = 0;
                app.input_buffer = app.clone.url.clone();
                app.input_cursor = end_of(&app.clone.url);
                app.clone.error = None;
            } else if app.no_repo {
                app.should_quit = true;
            } else {
                app.active_action = ActiveAction::Idle;
                app.clone.error = None;
                app.input_buffer = String::new();
                app.input_cursor = 0;
            }
        },
        KeyCode::Enter => {
            let input = trim(app.input_buffer.as_str());
            if input.as_str().is_empty() {
                return;
            }
            if app.clone.step == 0 {
                let dest = dest_from_url(input.as_str(), app.repo_root.as_str());
                let n = end_of(&dest);
                app.clone.url = input;
                app.input_buffer = dest;
                app.input_cursor = n;
                app.clone.step = 1;
                app.clone.error = None;
            } else {
                app.clone.loading = true;
                app.clone.error = None;
                app.loading_frame = 0;
                app.console.pending_operation = Some(
                    PendingConsoleOperation::CloneRepo { url: app.clone.url.clone(), dest: input },
                );
            }
        },
        _ => edit_text(app, code, modifiers),
    }
}

/// What a report of the background clone does.
pub open spec fn clone_event_effect(o: App, n: App, event: CloneEvent) -> bool {
    match event {
        CloneEvent::Finished(path) => n == (App {
            clone: CloneState { loading: false, ..o.clone },
            exit_path: Some(path),
            should_quit: true,
            ..o
        }),
        CloneEvent::Error(err) => n == (App {
            console: ConsoleState {
                handoff_needs_resume: o.console.handoff_needs_resume || o.console.handoff_active,
                ..o.console
            },
            clone: CloneState { loading: false, error: Some(err), ..o.clone },
            ..o
        }),
    }
}

/// Hands in a report of the background clone: success leaves the navigator for the new
/// worktree, failure shows the error.
pub fn apply_clone_event(app: &mut App, event: CloneEvent)
    ensures
        clone_event_effect(*old(app), *final(app), event),
{
    match event {
        CloneEvent::Finished(path) => {
            app.clone.loading = false;
            app.exit_path = Some(path);
            app.should_quit = true;
        },
        CloneEvent::Error(err) => {
            app.console.handoff_needs_resume = app.console.handoff_needs_resume
                || app.console.handoff_active;
            app.clone.loading = false;
            app.clone.error = Some(err);
        },
    }
}

/// What the end of the clone's report stream does.
pub open spec fn clone_disconnect_effect(o: App, n: App) -> bool {
    if o.clone.loading {
        &&& n.clone.error matches Some(e) && e@ == "Clone process ended unexpectedly."@
        &&& n == (App {
            console: ConsoleState {
                handoff_needs_resume: o.console.handoff_needs_resume || o.console.handoff_active,
                ..o.console
            },
            clone: CloneState { loading: false, error: n.clone.error, ..o.clone },
            ..o
        })
    } else {
        n == o
    }
}

/// The background clone stopped reporting before it finished.
pub fn apply_clone_disconnect(app: &mut App)
    ensures
        clone_disconnect_effect(*old(app), *final(app)),
{
    if app.clone.loading {
        app.console.handoff_needs_resume = app.console.handoff_needs_resume
            || app.console.handoff_active;
        app.clone.loading = false;
        app.clone.error = Some(owned("Clone process ended unexpectedly."));
    }
}

// ───────────────────────────── checkout remote ─────────────────────────────

/// The completion offered for `typed`: the rest of the first remote branch that extends it.
pub open spec fn completion_of(branches: Seq<String>, typed: Seq<char>) -> Option<Seq<char>>
    decreases branches.len(),
{
    if typed.len() == 0 || branches.len() == 0 {
        None
    } else if has_prefix(branches[0]@, typed) && branches[0]@.len() > typed.len() {
        Some(branches[0]@.skip(typed.len() as int))
    } else {
        completion_of(branches.drop_first(), typed)
    }
}

/// The rest of the first remote branch that extends the typed text, shown after it and
/// taken with Tab.
pub fn checkout_remote_ghost(app: &App) -> (r: Option<String>)
    ensures
        match r {
            Some(g) => completion_of(app.checkout_remote.branches@, app.input_buffer@) == Some(g@),
            None => completion_of(app.checkout_remote.branches@, app.input_buffer@) is None,
        },
{
    let typed = app.input_buffer.as_str();
    let bs = &app.checkout_remote.branches;
    if typed.is_empty() {
        return None;
    }
    let mut i: usize = 0;
    assert(bs@.skip(0) == bs@);
    while i < bs.len()
        invariant
            i <= bs@.len(),
            typed@.len() > 0,
            typed@ == app.input_buffer@,
            bs@ == app.checkout_remote.branches@,
            completion_of(bs@, typed@) == completion_of(bs@.skip(i as int), typed@),
        decreases bs@.len() - i,
    {
        assert(bs@.skip(i as int)[0] == bs@[i as int]);
        assert(bs@.skip(i as int).drop_first() == bs@.skip(i + 1));
        match strip_prefix(bs[i].as_str(), typed) {
            Some(rest) => {
                if !rest.as_str().is_empty() {
                    return Some(rest);
                }
            },
            None => {},
        }
        i += 1;
    }
    None
}

/// What a key does in the checkout-remote overlay.
pub open spec fn checkout_remote_key_effect(o: App, n: App, code: KeyCode, m: KeyModifiers) -> bool {
    let phase = o.checkout_remote.phase;
    if phase == CheckoutRemotePhase::SelectRemote {
        if code == KeyCode::Esc {
            n.input_buffer@.len() == 0 && n == (App {
                active_action: ActiveAction::Idle,
                overlay_error: None,
                input_buffer: n.input_buffer,
                input_cursor: 0,
                ..o
            })
        } else if code == KeyCode::Enter {
            let remote = trim_seq(o.input_buffer@);
            if remote.len() == 0 {
                n == o
            } else {
                &&& n.checkout_remote.name@ == remote
                &&& n.console.pending_operation matches Some(
                    PendingConsoleOperation::FetchRemote { remote: r },
                ) && r@ == remote
                &&& n == (App {
                    overlay_error: None,
                    checkout_remote: CheckoutRemoteState {
                        name: n.checkout_remote.name,
                        phase: CheckoutRemotePhase::FetchingRemote,
                        ..o.checkout_remote
                    },
                    console: ConsoleState {
                        pending_operation: n.console.pending_operation,
                        ..o.console
                    },
                    loading_frame: 0,
                    ..o
                })
            }
        } else {
            edited(o, n, code, m)
        }
    } else if phase == CheckoutRemotePhase::EnterBranch {
        if code == KeyCode::Esc {
            n == (App {
                checkout_remote: CheckoutRemoteState {
                    phase: CheckoutRemotePhase::SelectRemote,
                    ..o.checkout_remote
                },
                input_buffer: o.checkout_remote.name,
                input_cursor: o.checkout_remote.name@.len() as usize,
                overlay_error: None,
                ..o
            })
        } else if code == KeyCode::Tab {
            match completion_of(o.checkout_remote.branches@, o.input_buffer@) {
                Some(g) => if o.input_cursor + g.len() <= usize::MAX {
                    n.input_buffer@ == insert_at(o.input_buffer@, o.cpos(), g) && n == (App {
                        input_buffer: n.input_buffer,
                        input_cursor: (o.input_cursor + g.len()) as usize,
                        ..o
                    })
                } else {
                    n == o
                },
                None => n == o,
            }
        } else if code == KeyCode::Enter {
            if trim_seq(o.input_buffer@).len() == 0 {
                n == o
            } else {
                match checkout_branch_name(o.input_buffer@, o.checkout_remote.name@) {
                    Err(e) => err_is(n.overlay_error, e) && n == (App {
                        overlay_error: n.overlay_error,
                        ..o
                    }),
                    Ok(branch) => if branch_taken(o.worktrees@, branch, -1) {
                        err_is(n.overlay_error, "'"@ + branch + "' is already checked out."@)
                            && n == (App { overlay_error: n.overlay_error, ..o })
                    } else {
                        &&& n.checkout_remote.pending matches Some((r, b)) && r
                            == o.checkout_remote.name && b@ == branch
                        &&& n == (App {
                            overlay_error: None,
                            checkout_remote: CheckoutRemoteState {
                                phase: CheckoutRemotePhase::CreatingWorktree,
                                pending: n.checkout_remote.pending,
                                ..o.checkout_remote
                            },
                            loading_frame: 0,
                            ..o
                        })
                    },
                }
            }
        } else {
            edited(o, n, code, m)
        }
    } else {
        n == o
    }
}

/// Keys of the checkout-remote overlay: pick a remote (its fetch runs on the console),
/// then type a branch of it (Tab completes) whose worktree waits in
/// `checkout_remote.pending`. Esc steps back or leaves.
pub fn handle_checkout_remote_key(app: &mut App, code: KeyCode, modifiers: KeyModifiers)
    requires
        old(app).inv(),
    ensures
        checkout_remote_key_effect(*old(app), *final(app), code, modifiers),
{
    match app.checkout_remote.phase {
        CheckoutRemotePhase::SelectRemote => match code {
            KeyCode::Esc => {
                app.active_action = ActiveAction::Idle;
                app.overlay_error = None;
                app.input_buffer = String::new();
                app.input_cursor = 0;
            },
            KeyCode::Enter => {
                let remote = trim(app.input_buffer.as_str());
                if remote.as_str().is_empty() {
                    return;
                }
                app.checkout_remote.name = remote.clone();
                app.overlay_error = None;
                app.checkout_remote.phase = CheckoutRemotePhase::FetchingRemote;
                app.console.pending_operation = Some(
                    PendingConsoleOperation::FetchRemote { remote },
                );
                app.loading_frame = 0;
            },
            _ => edit_text(app, code, modifiers),
        },
        CheckoutRemotePhase::EnterBranch => match code {
            KeyCode::Esc => {
                app.checkout_remote.phase = CheckoutRemotePhase::SelectRemote;
                app.input_buffer = app.checkout_remote.name.clone();
                app.input_cursor = end_of(&app.checkout_remote.name);
                app.overlay_error = None;
            },
            KeyCode::Tab => {
                match checkout_remote_ghost(app) {
                    Some(g) => {
                        let k = end_of(&g);
                        if app.input_cursor <= usize::MAX - k {
                            app.input_str(g.as_str());
                        }
                    },
                    None => {},
                }
            },
            KeyCode::Enter => {
                if is_blank(app.input_buffer.as_str()) {
                    return;
                }
                let branch = match normalize_checkout_remote_branch_input(
                    app.input_buffer.as_str(),
                    app.checkout_remote.name.as_str(),
                ) {
                    Ok(b) => b,
                    Err(e) => {
                        app.overlay_error = Some(e);
                        return;
                    },
                };
                if branch_taken_exec(&app.worktrees, branch.as_str(), usize::MAX) {
                    let mut m = owned("'");
                    push_str(&mut m, branch.as_str());
                    push_str(&mut m, "' is already checked out.");
                    app.overlay_error = Some(m);
                    return;
                }
                app.overlay_error = None;
                app.checkout_remote.phase = CheckoutRemotePhase::CreatingWorktree;
                app.checkout_remote.pending = Some((app.checkout_remote.name.clone(), branch));
                app.loading_frame = 0;
            },
            _ => edit_text(app, code, modifiers),
        },
        _ => {},
    }
}

/// What the outcome of fetching the chosen remote does: its branches are offered, or the
/// failure is shown and the remote can be picked again.
pub open spec fn fetch_result_effect(o: App, n: App, result: Result<Vec<String>, String>) -> bool {
    if o.checkout_remote.phase != CheckoutRemotePhase::FetchingRemote {
        n == o
    } else {
        let resumed = ConsoleState {
            handoff_needs_resume: o.console.handoff_needs_resume || o.console.handoff_active,
            ..o.console
        };
        match result {
            Ok(branches) => n.input_buffer@.len() == 0 && n == (App {
                console: resumed,
                checkout_remote: CheckoutRemoteState {
                    branches,
                    phase: CheckoutRemotePhase::EnterBranch,
                    ..o.checkout_remote
                },
                input_buffer: n.input_buffer,
                input_cursor: 0,
                overlay_error: None,
                ..o
            }),
            Err(e) => err_is(n.overlay_error, "Fetch failed: "@ + e@) && n == (App {
                console: resumed,
                checkout_remote: CheckoutRemoteState {
                    phase: CheckoutRemotePhase::SelectRemote,
                    ..o.checkout_remote
                },
                input_buffer: o.checkout_remote.name,
                input_cursor: o.checkout_remote.name@.len() as usize,
                overlay_error: n.overlay_error,
                ..o
            }),
        }
    }
}

/// Hands in the outcome of the remote fetch, with the remote's branches when it worked.
pub fn apply_fetch_result(app: &mut App, result: Result<Vec<String>, String>)
    ensures
        fetch_result_effect(*old(app), *final(app), result),
{
    if app.checkout_remote.phase != CheckoutRemotePhase::FetchingRemote {
        return;
    }
    app.console.handoff_needs_resume = app.console.handoff_needs_resume
        || app.console.handoff_active;
    match result {
        Ok(branches) => {
            app.checkout_remote.branches = branches;
            app.checkout_remote.phase = CheckoutRemotePhase::EnterBranch;
            app.input_buffer = String::new();
            app.input_cursor = 0;
            app.overlay_error = None;
        },
        Err(e) => {
            app.checkout_remote.phase = CheckoutRemotePhase::SelectRemote;
            app.input_buffer = app.checkout_remote.name.clone();
            app.input_cursor = end_of(&app.checkout_remote.name);
            let mut m = owned("Fetch failed: ");
            push_str(&mut m, e.as_str());
            app.overlay_error = Some(m);
        },
    }
}

// ───────────────────────────── options ─────────────────────────────

/// The options overlay's indices point at scripts.
pub open spec fn options_ok(o: App) -> bool {
    let len = o.repo_config.post_create_scripts@.len();
    &&& (len > 0 ==> o.options.selected_idx < len)
    &&& (o.options.edit_idx matches Some(i) ==> i < len)
}

/// What starting to edit script `index` (or a new script) does.
pub open spec fn begin_edit_effect(o: App, n: App, index: Option<usize>) -> bool {
    match index {
        Some(i) => n == (App {
            options: OptionsState {
                phase: OptionsPhase::Editing,
                edit_idx: index,
                ..o.options
            },
            overlay_error: None,
            input_buffer: o.repo_config.post_create_scripts@[i as int].command,
            input_cursor: o.repo_config.post_create_scripts@[i as int].command@.len() as usize,
            ..o
        }),
        None => n.input_buffer@.len() == 0 && n == (App {
            options: OptionsState { phase: OptionsPhase::Editing, edit_idx: None, ..o.options },
            overlay_error: None,
            input_buffer: n.input_buffer,
            input_cursor: 0,
            ..o
        }),
    }
}

/// Opens the script editor on script `index`, or on a new script.
pub fn begin_options_edit(app: &mut App, index: Option<usize>)
    requires
        index matches Some(i) ==> i < old(app).repo_config.post_create_scripts@.len(),
    ensures
        begin_edit_effect(*old(app), *final(app), index),
{
    app.options.phase = OptionsPhase::Editing;
    app.options.edit_idx = index;
    app.overlay_error = None;
    match index {
        Some(i) => {
            app.input_buffer = app.repo_config.post_create_scripts[i].command.clone();
            app.input_cursor = end_of(&app.input_buffer);
        },
        None => {
            app.input_buffer = String::new();
            app.input_cursor = 0;
        },
    }
}

/// The scripts once script `i` runs `cmd` (or, with no `i`, once `cmd` is appended as an
/// enabled script).
pub open spec fn scripts_with_command(
    s: Seq<PostCreateScript>,
    t: Seq<PostCreateScript>,
    i: Option<usize>,
    cmd: Seq<char>,
) -> bool {
    match i {
        Some(k) => t.len() == s.len() && t[k as int].command@ == cmd && t[k as int].enabled
            == s[k as int].enabled && forall|j: int| 0 <= j < s.len() && j != k ==> t[j] == s[j],
        None => t.len() == s.len() + 1 && t.last().command@ == cmd && t.last().enabled
            && t.drop_last() == s,
    }
}

/// The scripts once script `k` is switched.
pub open spec fn scripts_toggled(s: Seq<PostCreateScript>, k: int) -> Seq<PostCreateScript> {
    s.update(k, PostCreateScript { enabled: !s[k].enabled, ..s[k] })
}

/// The options once script `idx` runs `command` (or it is appended).
fn config_with_command(config: &RepoConfig, idx: Option<usize>, command: String) -> (r: RepoConfig)
    requires
        idx matches Some(i) ==> i < config.post_create_scripts@.len(),
    ensures
        scripts_with_command(config.post_create_scripts@, r.post_create_scripts@, idx, command@),
{
    let mut next = config.duplicate();
    match idx {
        Some(i) => {
            let enabled = next.post_create_scripts[i].enabled;
            next.post_create_scripts.set(i, PostCreateScript { command, enabled });
        },
        None => {
            next.post_create_scripts.push(PostCreateScript { command, enabled: true });
            assert(next.post_create_scripts@.drop_last() =~= config.post_create_scripts@);
        },
    }
    next
}

/// The options overlay closed to its list, nothing typed.
pub open spec fn editor_reset(o: App, n: App) -> App {
    App {
        options: OptionsState { phase: OptionsPhase::BrowsingScripts, edit_idx: None, ..o.options },
        input_buffer: n.input_buffer,
        input_cursor: 0,
        ..o
    }
}

/// What a key does in the options overlay.
pub open spec fn options_key_effect(o: App, n: App, code: KeyCode, m: KeyModifiers) -> bool {
    let scripts = o.repo_config.post_create_scripts@;
    let count = scripts.len();
    if o.options.phase == OptionsPhase::Editing {
        if code == KeyCode::Esc {
            n.input_buffer@.len() == 0 && n == (App { overlay_error: None, ..editor_reset(o, n) })
        } else if code == KeyCode::Enter {
            let cmd = trim_seq(o.input_buffer@);
            if cmd.len() == 0 {
                err_is(n.overlay_error, "Command can't be empty."@) && n == (App {
                    overlay_error: n.overlay_error,
                    ..o
                })
            } else {
                &&& n.options.save_pending matches Some(cs) && cs.change == (ConfigChange::Edit {
                    appended: o.options.edit_idx is None,
                }) && scripts_with_command(
                    scripts,
                    cs.config.post_create_scripts@,
                    o.options.edit_idx,
                    cmd,
                )
                &&& n == (App {
                    options: OptionsState { save_pending: n.options.save_pending, ..o.options },
                    ..o
                })
            }
        } else {
            edited(o, n, code, m)
        }
    } else if code == KeyCode::Esc {
        n.input_buffer@.len() == 0 && n == (App {
            active_action: ActiveAction::Idle,
            ..editor_reset(o, n)
        })
    } else if is_up(code) {
        n == (App {
            options: OptionsState { selected_idx: dec(o.options.selected_idx), ..o.options },
            ..o
        })
    } else if is_down(code) {
        n == (App {
            options: OptionsState {
                selected_idx: inc_to(o.options.selected_idx, last_index(count)),
                ..o.options
            },
            ..o
        })
    } else if code == KeyCode::Char('a') {
        begin_edit_effect(o, n, None)
    } else if code == KeyCode::Enter || code == KeyCode::Char('e') {
        begin_edit_effect(
            o,
            n,
            if count > 0 {
                Some(o.options.selected_idx)
            } else {
                None
            },
        )
    } else if code == KeyCode::Char(' ') && count > 0 {
        &&& n.options.save_pending matches Some(cs) && cs.change == ConfigChange::Toggle
            && cs.config.post_create_scripts@ == scripts_toggled(
            scripts,
            o.options.selected_idx as int,
        )
        &&& n == (App {
            options: OptionsState { save_pending: n.options.save_pending, ..o.options },
            ..o
        })
    } else if (code == KeyCode::Char('d') || code == KeyCode::Delete || code == KeyCode::Backspace)
        && count > 0 {
        &&& n.options.save_pending matches Some(cs) && cs.change == ConfigChange::Remove
            && cs.config.post_create_scripts@ == scripts.remove(o.options.selected_idx as int)
        &&& n == (App {
            options: OptionsState { save_pending: n.options.save_pending, ..o.options },
            ..o
        })
    } else {
        n == o
    }
}

/// Keys of the options overlay: browse the post-create scripts, add, edit, switch or
/// remove one; a change waits to be saved in `options.save_pending` (answered by
/// `apply_config_save`).
pub fn handle_options_key(app: &mut App, code: KeyCode, modifiers: KeyModifiers)
    requires
        old(app).inv(),
        options_ok(*old(app)),
    ensures
        options_key_effect(*old(app), *final(app), code, modifiers),
{
    let count = app.repo_config.post_create_scripts.len();
    if app.options.phase == OptionsPhase::Editing {
        match code {
            KeyCode::Esc => {
                app.options.phase = OptionsPhase::BrowsingScripts;
                app.options.edit_idx = None;
                app.input_buffer = String::new();
                app.input_cursor = 0;
                app.overlay_error = None;
            },
            KeyCode::Enter => {
                let command = trim(app.input_buffer.as_str());
                if command.as_str().is_empty() {
                    app.overlay_error = Some(owned("Command can't be empty."));
                    return;
                }
                let appended = app.options.edit_idx.is_none();
                let config = config_with_command(&app.repo_config, app.options.edit_idx, command);
                app.options.save_pending = Some(
                    ConfigSave { config, change: ConfigChange::Edit { appended } },
                );
            },
            _ => edit_text(app, code, modifiers),
        }
        return;
    }
    match code {
        KeyCode::Esc => {
            app.active_action = ActiveAction::Idle;
            app.options.phase = OptionsPhase::BrowsingScripts;
            app.options.edit_idx = None;
            app.input_buffer = String::new();
            app.input_cursor = 0;
        },
        KeyCode::Up | KeyCode::Char('k') => {
            app.options.selected_idx = dec_exec(app.options.selected_idx);
        },
        KeyCode::Down | KeyCode::Char('j') => {
            app.options.selected_idx = inc_to_exec(
                app.options.selected_idx,
                last_index_exec(count),
            );
        },
        KeyCode::Char('a') => begin_options_edit(app, None),
        KeyCode::Enter | KeyCode::Char('e') => {
            if count > 0 {
                let i = app.options.selected_idx;
                begin_options_edit(app, Some(i));
            } else {
                begin_options_edit(app, None);
            }
        },
        KeyCode::Char(' ') => {
            if count == 0 {
                return;
            }
            let i = app.options.selected_idx;
            let mut config = app.repo_config.duplicate();
            let mut script = config.post_create_scripts[i].duplicate();
            script.enabled = !script.enabled;
            config.post_create_scripts.set(i, script);
            app.options.save_pending = Some(ConfigSave { config, change: ConfigChange::Toggle });
        },
        KeyCode::Char('d') | KeyCode::Delete | KeyCode::Backspace => {
            if count == 0 {
                return;
            }
            let i = app.options.selected_idx;
            let mut config = app.repo_config.duplicate();
            let _ = config.post_create_scripts.remove(i);
            app.options.save_pending = Some(ConfigSave { config, change: ConfigChange::Remove });
        },
        _ => {},
    }
}

/// What the outcome of saving the options does.
pub open spec fn config_save_effect(o: App, n: App, result: Result<(), String>) -> bool {
    match o.options.save_pending {
        None => n == o,
        Some(cs) => match result {
            Ok(_) => {
                let len = cs.config.post_create_scripts@.len();
                let saved = App {
                    repo_config: cs.config,
                    options: OptionsState { save_pending: None, ..o.options },
                    overlay_error: None,
                    ..o
                };
                match cs.change {
                    ConfigChange::Edit { appended } => n.input_buffer@.len() == 0 && n == (App {
                        options: OptionsState {
                            selected_idx: if appended {
                                last_index(len)
                            } else {
                                o.options.selected_idx
                            },
                            phase: OptionsPhase::BrowsingScripts,
                            edit_idx: None,
                            save_pending: None,
                            ..o.options
                        },
                        input_buffer: n.input_buffer,
                        input_cursor: 0,
                        ..saved
                    }),
                    ConfigChange::Toggle => n == saved,
                    ConfigChange::Remove => n == (App {
                        options: OptionsState {
                            selected_idx: if o.options.selected_idx < last_index(len) {
                                o.options.selected_idx
                            } else {
                                last_index(len)
                            },
                            save_pending: None,
                            ..o.options
                        },
                        ..saved
                    }),
                }
            },
            Err(e) => err_is(n.overlay_error, "Failed to save post-create scripts: "@ + e@) && n
                == (App {
                options: OptionsState { save_pending: None, ..o.options },
                overlay_error: n.overlay_error,
                ..o
            }),
        },
    }
}

/// Hands in the outcome of saving the options: the saved options take effect, or the
/// failure is shown and nothing changes.
pub fn apply_config_save(app: &mut App, result: Result<(), String>)
    ensures
        config_save_effect(*old(app), *final(app), result),
{
    let cs = match app.options.save_pending.take() {
        Some(cs) => cs,
        None => {
            return;
        },
    };
    match result {
        Ok(_) => {
            let len = cs.config.post_create_scripts.len();
            let change = cs.change;
            app.repo_config = cs.config;
            app.overlay_error = None;
            match change {
                ConfigChange::Edit { appended } => {
                    if appended {
                        app.options.selected_idx = last_index_exec(len);
                    }
                    app.options.phase = OptionsPhase::BrowsingScripts;
                    app.options.edit_idx = None;
                    app.input_buffer = String::new();
                    app.input_cursor = 0;
                },
                ConfigChange::Toggle => {},
                ConfigChange::Remove => {
                    let max = last_index_exec(len);
                    if app.options.selected_idx >= max {
                        app.options.selected_idx = max;
                    }
                },
            }
        },
        Err(e) => {
            let mut m = owned("Failed to save post-create scripts: ");
            push_str(&mut m, e.as_str());
            app.overlay_error = Some(m);
        },
    }
}

// ───────────────────────────── background work ─────────────────────────────

/// The console needs the full-screen view back once a handed-off operation ends.
pub open spec fn resumed(c: ConsoleState) -> ConsoleState {
    ConsoleState { handoff_needs_resume: c.handoff_needs_resume || c.handoff_active, ..c }
}

/// What finishing with a new worktree at `dest` does once the state is tidied: without
/// setup scripts the navigator leaves for `dest`; with some, a request to run them comes
/// back.
pub open spec fn post_create_plan(
    o: App,
    n: App,
    r: Option<PostCreateRequest>,
    branch: Seq<char>,
    base_branch: Option<Seq<char>>,
    dest: String,
) -> bool {
    let scripts = o.repo_config.post_create_scripts@.filter(|s: PostCreateScript| is_runnable(s));
    if scripts.len() == 0 {
        r is None && n == (App { exit_path: Some(dest), should_quit: true, ..o })
    } else {
        &&& n == o
        &&& r matches Some(req) && req.repo_root == o.repo_root && req.worktree_path == dest
            && req.branch@ == branch && opt_chars(req.base_branch) == base_branch && req.scripts@
            == scripts
    }
}

/// Decides what follows the creation of the worktree at `dest`.
fn plan_post_create(app: &mut App, branch: &str, base_branch: Option<String>, dest: String) -> (r:
    Option<PostCreateRequest>)
    ensures
        post_create_plan(*old(app), *final(app), r, branch@, opt_chars(base_branch), dest),
{
    let scripts = app.repo_config.enabled_post_create_scripts();
    if scripts.len() == 0 {
        app.exit_path = Some(dest);
        app.should_quit = true;
        return None;
    }
    Some(
        PostCreateRequest {
            repo_root: app.repo_root.clone(),
            worktree_path: dest,
            branch: owned(branch),
            base_branch,
            scripts,
        },
    )
}

/// What a report of the pull-request checkout does.
pub open spec fn sync_pr_event_effect(o: App, n: App, event: SyncPrEvent, r: Option<
    PostCreateRequest,
>) -> bool {
    match event {
        SyncPrEvent::Progress { line } => r is None && n.sync.pr_output@ == o.sync.pr_output@.push(
            line,
        ) && n == (App { sync: SyncState { pr_output: n.sync.pr_output, ..o.sync }, ..o }),
        SyncPrEvent::Finished { worktree_path, branch, base_branch, created } => {
            let closed = App {
                sync: SyncState { pr_loading: false, ..o.sync },
                active_action: ActiveAction::Idle,
                input_buffer: n.input_buffer,
                input_cursor: 0,
                refresh_pending: true,
                ..o
            };
            &&& n.input_buffer@.len() == 0
            &&& if created {
                post_create_plan(closed, n, r, branch@, opt_chars(base_branch), worktree_path)
            } else {
                r is None && n == (App {
                    exit_path: Some(worktree_path),
                    should_quit: true,
                    ..closed
                })
            }
        },
        SyncPrEvent::Error(err) => r is None && err_is(n.overlay_error, "Failed to sync PR: "@ + err@)
            && n == (App {
            console: resumed(o.console),
            sync: SyncState { pr_loading: false, ..o.sync },
            overlay_error: n.overlay_error,
            ..o
        }),
    }
}

/// Hands in a report of the pull-request checkout. When it finished, the worktree list
/// is to be read again (`refresh_pending`) and the navigator leaves for the worktree; a
/// newly created one first gets its setup scripts, returned as a request to run.
pub fn apply_sync_pr_event(app: &mut App, event: SyncPrEvent) -> (r: Option<PostCreateRequest>)
    ensures
        sync_pr_event_effect(*old(app), *final(app), event, r),
{
    match event {
        SyncPrEvent::Progress { line } => {
            app.sync.pr_output.push(line);
            None
        },
        SyncPrEvent::Finished { worktree_path, branch, base_branch, created } => {
            app.sync.pr_loading = false;
            app.active_action = ActiveAction::Idle;
            app.input_buffer = String::new();
            app.input_cursor = 0;
            app.refresh_pending = true;
            if created {
                plan_post_create(app, branch.as_str(), base_branch, worktree_path)
            } else {
                app.exit_path = Some(worktree_path);
                app.should_quit = true;
                None
            }
        },
        SyncPrEvent::Error(err) => {
            app.console.handoff_needs_resume = app.console.handoff_needs_resume
                || app.console.handoff_active;
            app.sync.pr_loading = false;
            let mut m = owned("Failed to sync PR: ");
            push_str(&mut m, err.as_str());
            app.overlay_error = Some(m);
            None
        },
    }
}

/// A background operation that stopped reporting before it finished.
pub open spec fn ended_unexpectedly(o: App, n: App, loading: bool, after: App, m: Seq<char>) -> bool {
    if loading {
        err_is(n.overlay_error, m) && n == (App {
            console: resumed(o.console),
            overlay_error: n.overlay_error,
            ..after
        })
    } else {
        n == o
    }
}

/// The pull-request checkout stopped reporting before it finished.
pub fn apply_sync_pr_disconnect(app: &mut App)
    ensures
        ended_unexpectedly(
            *old(app),
            *final(app),
            old(app).sync.pr_loading,
            App { sync: SyncState { pr_loading: false, ..old(app).sync }, ..*old(app) },
            "PR sync ended unexpectedly."@,
        ),
{
    if app.sync.pr_loading {
        app.console.handoff_needs_resume = app.console.handoff_needs_resume
            || app.console.handoff_active;
        app.sync.pr_loading = false;
        app.overlay_error = Some(owned("PR sync ended unexpectedly."));
    }
}

/// Hands in the result of syncing a worktree; the worktree list is to be read again.
pub fn apply_sync_result(app: &mut App, fetch_ok: bool, result: SyncResult)
    ensures
        final(app).sync.results@ == seq![result],
        *final(app) == (App {
            console: resumed(old(app).console),
            sync: SyncState {
                fetch_ok,
                results: final(app).sync.results,
                loading: false,
                ..old(app).sync
            },
            refresh_pending: true,
            ..*old(app)
        }),
{
    app.console.handoff_needs_resume = app.console.handoff_needs_resume
        || app.console.handoff_active;
    app.sync.fetch_ok = fetch_ok;
    app.sync.results = vec![result];
    app.sync.loading = false;
    app.refresh_pending = true;
}

/// The sync stopped reporting before it finished.
pub fn apply_sync_disconnect(app: &mut App)
    ensures
        ended_unexpectedly(
            *old(app),
            *final(app),
            old(app).sync.loading,
            App { sync: SyncState { loading: false, ..old(app).sync }, ..*old(app) },
            "Sync ended unexpectedly."@,
        ),
{
    if app.sync.loading {
        app.console.handoff_needs_resume = app.console.handoff_needs_resume
            || app.console.handoff_active;
        app.sync.loading = false;
        app.overlay_error = Some(owned("Sync ended unexpectedly."));
    }
}

/// What the outcome of running the setup scripts of the worktree at `dest` does.
pub open spec fn post_create_outcome_effect(o: App, n: App, dest: String, result: Result<(), String>) -> bool {
    match result {
        Ok(_) => n == (App { exit_path: Some(dest), should_quit: true, ..o }),
        Err(e) => err_is(n.overlay_error, "Worktree created, but setup failed: "@ + e@) && n == (App {
            console: resumed(o.console),
            overlay_error: n.overlay_error,
            ..o
        }),
    }
}

/// Hands in the outcome of running the setup scripts: success leaves for the worktree,
/// failure is shown.
pub fn apply_post_create_outcome(app: &mut App, dest: String, result: Result<(), String>)
    ensures
        post_create_outcome_effect(*old(app), *final(app), dest, result),
{
    match result {
        Ok(_) => {
            app.exit_path = Some(dest);
            app.should_quit = true;
        },
        Err(e) => {
            app.console.handoff_needs_resume = app.console.handoff_needs_resume
                || app.console.handoff_active;
            let mut m = owned("Worktree created, but setup failed: ");
            push_str(&mut m, e.as_str());
            app.overlay_error = Some(m);
        },
    }
}

/// Hands in the outcome of writing the setup request for the shell wrapper: success
/// leaves for the worktree and names the request, failure is shown.
pub fn apply_post_create_request(app: &mut App, dest: String, result: Result<String, String>)
    ensures
        match result {
            Ok(req) => *final(app) == (App {
                exit_path: Some(dest),
                exit_post_create_request: Some(req),
                should_quit: true,
                ..*old(app)
            }),
            Err(e) => err_is(final(app).overlay_error, "Worktree created, but setup request failed: "@ + e@)
                && *final(app) == (App {
                console: resumed(old(app).console),
                overlay_error: final(app).overlay_error,
                ..*old(app)
            }),
        },
{
    match result {
        Ok(req) => {
            app.exit_path = Some(dest);
            app.exit_post_create_request = Some(req);
            app.should_quit = true;
        },
        Err(e) => {
            app.console.handoff_needs_resume = app.console.handoff_needs_resume
                || app.console.handoff_active;
            let mut m = owned("Worktree created, but setup request failed: ");
            push_str(&mut m, e.as_str());
            app.overlay_error = Some(m);
        },
    }
}

/// Tidies up after a worktree was created at `dest` (new branch or remote checkout) and
/// decides what follows (see `post_create_plan`); the list is to be read again.
pub fn complete_new_worktree_creation(
    app: &mut App,
    branch: &str,
    base_branch: Option<String>,
    dest: String,
) -> (r: Option<PostCreateRequest>)
    ensures
        final(app).input_buffer@.len() == 0,
        post_create_plan(
            App {
                new_branch: NewBranchState {
                    loading: false,
                    use_existing: false,
                    confirm_existing: None,
                    ..old(app).new_branch
                },
                active_action: ActiveAction::Idle,
                input_buffer: final(app).input_buffer,
                input_cursor: 0,
                refresh_pending: true,
                ..*old(app)
            },
            *final(app),
            r,
            branch@,
            opt_chars(base_branch),
            dest,
        ),
{
    app.new_branch.loading = false;
    app.new_branch.use_existing = false;
    app.new_branch.confirm_existing = None;
    app.active_action = ActiveAction::Idle;
    app.input_buffer = String::new();
    app.input_cursor = 0;
    app.refresh_pending = true;
    plan_post_create(app, branch, base_branch, dest)
}

} // verus!
