//! The navigator's run loop between events: the requests it hands out for git and the
//! console to carry out, what their outcomes do to the state, and the choices the
//! command line makes among worktrees.
use vstd::prelude::*;

use crate::app::{
    first_current, first_main, opt_index, App, ConsoleState, CopySecretsState, DeleteState,
    NewBranchState, PendingConsoleOperation, RenameState, SyncState, COMMAND_COUNT,
};
use crate::cli::{opt_chars, BranchBase};
use crate::config::{PostCreateRequest, RepoConfig};
use crate::controller::{complete_new_worktree_creation, err_is, post_create_plan, resumed};
use crate::text::{has_prefix, owned, push_str, str_eq, strip_prefix, trim, trim_end_char, trim_end_char_seq, trim_seq};
use crate::types::{ActiveAction, CheckoutRemotePhase, CopySecretsPhase, Worktree};
use crate::git::{clone_dest, dest_from_url, join_path, worktree_path_for_name};

verus! {

// ───────────────────────────── the run loop ─────────────────────────────

/// The first worktree whose path is `path`.
pub open spec fn index_of_path(ws: Seq<Worktree>, path: Seq<char>, from: int) -> Option<int>
    decreases ws.len() - from,
{
    if from < 0 || from >= ws.len() {
        None
    } else if ws[from].path@ == path {
        Some(from)
    } else {
        index_of_path(ws, path, from + 1)
    }
}

/// Selects the worktree at `path` in the main list, if it is listed.
pub fn select_worktree_by_path(app: &mut App, path: &str)
    requires
        old(app).inv(),
    ensures
        *final(app) == (match index_of_path(old(app).worktrees@, path@, 0) {
            Some(i) => App { selected_index: (COMMAND_COUNT + i) as usize, ..*old(app) },
            None => *old(app),
        }),
{
    let mut i: usize = 0;
    while i < app.worktrees.len()
        invariant
            i <= app.worktrees@.len(),
            *app == *old(app),
            app.inv(),
            index_of_path(app.worktrees@, path@, 0) == index_of_path(app.worktrees@, path@, i as int),
        decreases app.worktrees@.len() - i,
    {
        if str_eq(app.worktrees[i].path.as_str(), path) {
            app.selected_index = COMMAND_COUNT + i;
            return;
        }
        i += 1;
    }
}

/// Some background work is running, so the loading animation moves.
pub open spec fn is_busy(o: App) -> bool {
    o.sync.loading || o.sync.pr_loading || o.clone.loading || o.new_branch.loading
        || o.rename.loading || o.delete.loading || o.copy_secrets.loading
        || o.checkout_remote.phase == CheckoutRemotePhase::FetchingRemote
        || o.checkout_remote.phase == CheckoutRemotePhase::CreatingWorktree
}

/// Whether the loading animation should move on.
pub fn needs_loading_animation(app: &App) -> (r: bool)
    ensures
        r == is_busy(*app),
{
    app.sync.loading || app.sync.pr_loading || app.clone.loading || app.new_branch.loading
        || app.rename.loading || app.delete.loading || app.copy_secrets.loading
        || app.checkout_remote_is_loading()
}

/// Turns a picked sync into a console operation on the picked worktree.
pub fn take_sync_request(app: &mut App)
    ensures
        !old(app).sync.pending ==> *final(app) == *old(app),
        old(app).sync.pending && old(app).sync.selected_idx < old(app).worktrees@.len() ==> *final(app)
            == (App {
            sync: SyncState { pending: false, ..old(app).sync },
            console: ConsoleState {
                pending_operation: Some(
                    PendingConsoleOperation::SyncWorktree {
                        wt: old(app).worktrees@[old(app).sync.selected_idx as int],
                    },
                ),
                ..old(app).console
            },
            ..*old(app)
        }),
        old(app).sync.pending && old(app).sync.selected_idx >= old(app).worktrees@.len()
            ==> *final(app) == (App {
            sync: SyncState { pending: false, ..old(app).sync },
            ..*old(app)
        }),
{
    if !app.sync.pending {
        return;
    }
    app.sync.pending = false;
    if app.sync.selected_idx < app.worktrees.len() {
        let wt = app.worktrees[app.sync.selected_idx].duplicate();
        app.console.pending_operation = Some(PendingConsoleOperation::SyncWorktree { wt });
    }
}

/// Hands out the console operation that waits, and hands the terminal to it.
pub fn take_console_operation(app: &mut App) -> (r: Option<PendingConsoleOperation>)
    ensures
        r == old(app).console.pending_operation,
        r is None ==> *final(app) == *old(app),
        r is Some ==> *final(app) == (App {
            console: ConsoleState {
                pending_operation: None,
                handoff_active: true,
                handoff_needs_resume: false,
            },
            ..*old(app)
        }),
{
    let op = app.console.pending_operation.take();
    if op.is_some() {
        app.console.handoff_active = true;
        app.console.handoff_needs_resume = false;
    }
    op
}

/// Whether the full-screen view comes back now: a handed-off operation ended and the
/// navigator is not leaving anyway.
pub fn should_resume(app: &App) -> (r: bool)
    ensures
        r == (app.console.handoff_needs_resume && !app.should_quit),
{
    app.console.handoff_needs_resume && !app.should_quit
}

/// The terminal is back with the navigator.
pub fn finish_handoff(app: &mut App)
    ensures
        *final(app) == (App {
            console: ConsoleState {
                handoff_active: false,
                handoff_needs_resume: false,
                ..old(app).console
            },
            ..*old(app)
        }),
{
    app.console.handoff_active = false;
    app.console.handoff_needs_resume = false;
}

/// Hands out the branch whose worktree waits to be created, with its base and whether
/// the branch exists already.
pub fn take_new_branch_request(app: &mut App) -> (r: Option<(String, Option<String>, bool)>)
    ensures
        *final(app) == (App {
            new_branch: NewBranchState { pending: None, ..old(app).new_branch },
            ..*old(app)
        }),
        match old(app).new_branch.pending {
            Some(b) => r == Some((b, old(app).new_branch.base, old(app).new_branch.use_existing)),
            None => r is None,
        },
{
    match app.new_branch.pending.take() {
        Some(b) => Some((b, app.new_branch.base.clone(), app.new_branch.use_existing)),
        None => None,
    }
}

/// The worktree of a new branch could not be created.
pub fn apply_new_branch_failure(app: &mut App, err: &str)
    ensures
        err_is(final(app).overlay_error, "Failed to create branch: "@ + err@),
        *final(app) == (App {
            new_branch: NewBranchState { loading: false, use_existing: false, ..old(app).new_branch },
            overlay_error: final(app).overlay_error,
            ..*old(app)
        }),
{
    app.new_branch.loading = false;
    app.new_branch.use_existing = false;
    let mut m = owned("Failed to create branch: ");
    push_str(&mut m, err);
    app.overlay_error = Some(m);
}

/// Hands out the worktree and branch name that wait to be renamed.
pub fn take_rename_request(app: &mut App) -> (r: Option<(Worktree, String)>)
    ensures
        r == old(app).rename.pending,
        *final(app) == (App {
            rename: RenameState { pending: None, ..old(app).rename },
            ..*old(app)
        }),
{
    app.rename.pending.take()
}

/// Hands in the outcome of a rename: the overlay closes and the list is to be read
/// again (renaming the current worktree leaves for its new path), or the failure shows.
pub fn apply_rename_result(app: &mut App, renamed_current: bool, result: Result<String, String>)
    ensures
        match result {
            Ok(path) => {
                let closed = App {
                    rename: RenameState { loading: false, target_idx: None, ..old(app).rename },
                    active_action: ActiveAction::Idle,
                    input_buffer: final(app).input_buffer,
                    input_cursor: 0,
                    refresh_pending: true,
                    ..*old(app)
                };
                final(app).input_buffer@.len() == 0 && *final(app) == (if renamed_current {
                    App { exit_path: Some(path), should_quit: true, ..closed }
                } else {
                    closed
                })
            },
            Err(e) => err_is(final(app).overlay_error, "Failed to rename worktree: "@ + e@)
                && *final(app) == (App {
                rename: RenameState { loading: false, ..old(app).rename },
                overlay_error: final(app).overlay_error,
                ..*old(app)
            }),
        },
{
    match result {
        Ok(path) => {
            app.rename.loading = false;
            app.rename.target_idx = None;
            app.active_action = ActiveAction::Idle;
            app.input_buffer = String::new();
            app.input_cursor = 0;
            app.refresh_pending = true;
            if renamed_current {
                app.exit_path = Some(path);
                app.should_quit = true;
            }
        },
        Err(e) => {
            app.rename.loading = false;
            let mut m = owned("Failed to rename worktree: ");
            push_str(&mut m, e.as_str());
            app.overlay_error = Some(m);
        },
    }
}

/// Hands out the paths of the worktrees that wait to be removed.
pub fn take_delete_request(app: &mut App) -> (r: Option<Vec<String>>)
    ensures
        r == old(app).delete.pending,
        *final(app) == (App {
            delete: DeleteState { pending: None, ..old(app).delete },
            ..*old(app)
        }),
{
    app.delete.pending.take()
}

/// Hands in the outcome of removing worktrees: the overlay closes either way; removing
/// the current worktree leaves for the default one, otherwise the list is to be read
/// again; a failure shows.
pub fn apply_delete_result(app: &mut App, result: Result<(), String>)
    ensures
        final(app).delete.confirm_targets@.len() == 0,
        final(app).delete.checked@.len() == 0,
        ({
            let closed = DeleteState {
                loading: false,
                warn_current: false,
                confirm_targets: final(app).delete.confirm_targets,
                checked: final(app).delete.checked,
                redirect_path: None,
                ..old(app).delete
            };
            match result {
                Ok(_) => match old(app).delete.redirect_path {
                    Some(p) => *final(app) == (App {
                        delete: closed,
                        active_action: ActiveAction::Idle,
                        overlay_error: None,
                        exit_path: Some(p),
                        should_quit: true,
                        ..*old(app)
                    }),
                    None => *final(app) == (App {
                        delete: closed,
                        active_action: ActiveAction::Idle,
                        overlay_error: None,
                        refresh_pending: true,
                        ..*old(app)
                    }),
                },
                Err(e) => err_is(final(app).overlay_error, "Failed to delete worktree: "@ + e@)
                    && *final(app) == (App {
                    delete: closed,
                    active_action: ActiveAction::Idle,
                    overlay_error: final(app).overlay_error,
                    ..*old(app)
                }),
            }
        }),
{
    app.delete.loading = false;
    app.active_action = ActiveAction::Idle;
    app.delete.warn_current = false;
    app.delete.confirm_targets = Vec::new();
    app.delete.checked = Vec::new();
    let redirect = app.delete.redirect_path.take();
    match result {
        Ok(_) => {
            app.overlay_error = None;
            match redirect {
                Some(p) => {
                    app.exit_path = Some(p);
                    app.should_quit = true;
                },
                None => {
                    app.refresh_pending = true;
                },
            }
        },
        Err(e) => {
            let mut m = owned("Failed to delete worktree: ");
            push_str(&mut m, e.as_str());
            app.overlay_error = Some(m);
        },
    }
}

/// Hands out the source and target of a confirmed secrets copy.
pub fn take_copy_request(app: &mut App) -> (r: Option<(Worktree, Worktree)>)
    ensures
        !old(app).copy_secrets.pending ==> r is None && *final(app) == *old(app),
        old(app).copy_secrets.pending ==> match (
            old(app).copy_secrets.source_idx,
            old(app).copy_secrets.target_idx,
        ) {
            (Some(s), t) if s < old(app).worktrees@.len() && t < old(app).worktrees@.len() => r
                == Some((old(app).worktrees@[s as int], old(app).worktrees@[t as int]))
                && *final(app) == (App {
                copy_secrets: CopySecretsState { pending: false, ..old(app).copy_secrets },
                ..*old(app)
            }),
            _ => r is None && *final(app) == (App {
                copy_secrets: CopySecretsState {
                    pending: false,
                    loading: false,
                    ..old(app).copy_secrets
                },
                ..*old(app)
            }),
        },
{
    if !app.copy_secrets.pending {
        return None;
    }
    app.copy_secrets.pending = false;
    let t = app.copy_secrets.target_idx;
    match app.copy_secrets.source_idx {
        Some(s) => {
            if s < app.worktrees.len() && t < app.worktrees.len() {
                return Some((app.worktrees[s].duplicate(), app.worktrees[t].duplicate()));
            }
        },
        None => {},
    }
    app.copy_secrets.loading = false;
    None
}

/// Hands in the outcome of copying secrets: the overlay closes and the list is to be
/// read again, or the failure shows and the target can be picked again.
pub fn apply_copy_result(app: &mut App, result: Result<usize, String>)
    ensures
        match result {
            Ok(_) => *final(app) == (App {
                copy_secrets: CopySecretsState { loading: false, ..old(app).copy_secrets },
                active_action: ActiveAction::Idle,
                overlay_error: None,
                refresh_pending: true,
                ..*old(app)
            }),
            Err(e) => err_is(final(app).overlay_error, "Failed to copy secrets: "@ + e@)
                && *final(app) == (App {
                copy_secrets: CopySecretsState {
                    loading: false,
                    phase: CopySecretsPhase::SelectTarget,
                    ..old(app).copy_secrets
                },
                overlay_error: final(app).overlay_error,
                ..*old(app)
            }),
        },
{
    match result {
        Ok(_) => {
            app.copy_secrets.loading = false;
            app.active_action = ActiveAction::Idle;
            app.overlay_error = None;
            app.refresh_pending = true;
        },
        Err(e) => {
            app.copy_secrets.loading = false;
            app.copy_secrets.phase = CopySecretsPhase::SelectTarget;
            let mut m = owned("Failed to copy secrets: ");
            push_str(&mut m, e.as_str());
            app.overlay_error = Some(m);
        },
    }
}

/// Hands out the remote and branch whose worktree waits to be created.
pub fn take_checkout_request(app: &mut App) -> (r: Option<(String, String)>)
    ensures
        r == old(app).checkout_remote.pending,
        *final(app) == (App {
            checkout_remote: crate::app::CheckoutRemoteState {
                pending: None,
                ..old(app).checkout_remote
            },
            ..*old(app)
        }),
{
    app.checkout_remote.pending.take()
}

/// Hands in the outcome of creating the worktree of a remote branch: on success the
/// worktree is completed like a new branch's (see `complete_new_worktree_creation`),
/// otherwise the failure shows and the branch can be typed again.
pub fn apply_checkout_remote_result(app: &mut App, branch: &str, result: Result<String, String>) -> (r:
    Option<PostCreateRequest>)
    ensures
        match result {
            Ok(dest) => final(app).input_buffer@.len() == 0 && post_create_plan(
                App {
                    checkout_remote: crate::app::CheckoutRemoteState {
                        phase: CheckoutRemotePhase::SelectRemote,
                        ..old(app).checkout_remote
                    },
                    new_branch: NewBranchState {
                        loading: false,
                        use_existing: false,
                        confirm_existing: None,
                        ..old(app).new_branch
                    },
                    active_action: ActiveAction::Idle,
                    input_buffer: final(app).input_buffer,
                    input_cursor: 0,
                    refresh_pending: true,
                    ..*old(app)
                },
                *final(app),
                r,
                branch@,
                None,
                dest,
            ),
            Err(e) => r is None && final(app).overlay_error == Some(e) && *final(app) == (App {
                checkout_remote: crate::app::CheckoutRemoteState {
                    phase: CheckoutRemotePhase::EnterBranch,
                    ..old(app).checkout_remote
                },
                overlay_error: Some(e),
                ..*old(app)
            }),
        },
{
    match result {
        Ok(dest) => {
            app.checkout_remote.phase = CheckoutRemotePhase::SelectRemote;
            complete_new_worktree_creation(app, branch, None, dest)
        },
        Err(e) => {
            app.checkout_remote.phase = CheckoutRemotePhase::EnterBranch;
            app.overlay_error = Some(e);
            None
        },
    }
}

/// Hands in a fresh worktree list (or why it could not be read).
pub fn apply_worktree_list(app: &mut App, result: Result<Vec<Worktree>, String>)
    ensures
        match result {
            Ok(ws) => *final(app) == (App {
                worktrees: ws,
                worktrees_error: None,
                refresh_pending: false,
                ..*old(app)
            }),
            Err(e) => *final(app) == (App {
                worktrees_error: Some(e),
                refresh_pending: false,
                ..*old(app)
            }),
        },
{
    app.refresh_pending = false;
    match result {
        Ok(ws) => {
            app.worktrees = ws;
            app.worktrees_error = None;
        },
        Err(e) => {
            app.worktrees_error = Some(e);
        },
    }
}

/// Hands in the first worktree list. The selection starts on the current worktree (the
/// first one when none is current); in a repository with no worktrees it stays on the
/// commands.
pub fn apply_initial_worktrees(app: &mut App, result: Result<Vec<Worktree>, String>)
    requires
        result matches Ok(ws) ==> ws@.len() + COMMAND_COUNT <= usize::MAX,
    ensures
        match result {
            Ok(ws) => {
                let cur = match first_current(ws@) {
                    Some(i) => i,
                    None => 0,
                };
                *final(app) == (App {
                    worktrees: ws,
                    worktrees_loading: false,
                    selected_index: if old(app).is_workspace || ws@.len() > 0 {
                        (COMMAND_COUNT + cur) as usize
                    } else {
                        old(app).selected_index
                    },
                    ..*old(app)
                })
            },
            Err(e) => *final(app) == (App {
                worktrees_loading: false,
                worktrees_error: Some(e),
                ..*old(app)
            }),
        },
{
    app.worktrees_loading = false;
    match result {
        Ok(ws) => {
            app.worktrees = ws;
            let cur = match app.current_worktree_idx() {
                Some(i) => i,
                None => 0,
            };
            if app.is_workspace || app.worktrees.len() > 0 {
                app.selected_index = COMMAND_COUNT + cur;
            }
        },
        Err(e) => {
            app.worktrees_error = Some(e);
        },
    }
}

/// Outside any repository the navigator opens on the clone flow.
pub fn start_without_repo(app: &mut App)
    ensures
        *final(app) == (App {
            no_repo: true,
            worktrees_loading: false,
            active_action: ActiveAction::CloneRepo,
            ..*old(app)
        }),
{
    app.no_repo = true;
    app.worktrees_loading = false;
    app.active_action = ActiveAction::CloneRepo;
}

/// Hands in the repository options read at start (or why they could not be read).
pub fn apply_repo_config(app: &mut App, result: Result<RepoConfig, String>)
    ensures
        match result {
            Ok(c) => *final(app) == (App { repo_config: c, ..*old(app) }),
            Err(e) => err_is(final(app).overlay_error, "Failed to load options: "@ + e@)
                && *final(app) == (App { overlay_error: final(app).overlay_error, ..*old(app) }),
        },
{
    match result {
        Ok(c) => {
            app.repo_config = c;
        },
        Err(e) => {
            let mut m = owned("Failed to load options: ");
            push_str(&mut m, e.as_str());
            app.overlay_error = Some(m);
        },
    }
}

// ───────────────────────────── the command line ─────────────────────────────

/// The first worktree on `branch`.
pub open spec fn worktree_on(ws: Seq<Worktree>, branch: Seq<char>) -> Option<int> {
    crate::app::first_where(ws, |w: Worktree| w.branch@ == branch)
}

/// The worktree of `branch_name`, for `wt gco <branch>`.
pub fn resolve_worktree_by_branch_in(worktrees: Vec<Worktree>, branch_name: &str) -> (r: Result<
    Worktree,
    String,
>)
    ensures
        match (r, worktree_on(worktrees@, branch_name@)) {
            (Ok(w), Some(i)) => w == worktrees@[i],
            (Err(e), None) => e@ == "No worktree found for branch '"@ + branch_name@ + "'."@,
            _ => false,
        },
{
    let mut i: usize = 0;
    while i < worktrees.len()
        invariant
            i <= worktrees@.len(),
            forall|j: int| 0 <= j < i ==> worktrees@[j].branch@ != branch_name@,
        decreases worktrees@.len() - i,
    {
        if str_eq(worktrees[i].branch.as_str(), branch_name) {
            proof {
                crate::app::lemma_first_where(
                    worktrees@,
                    |w: Worktree| w.branch@ == branch_name@,
                    Some(i),
                );
            }
            return Ok(worktrees[i].duplicate());
        }
        i += 1;
    }
    proof {
        crate::app::lemma_first_where(worktrees@, |w: Worktree| w.branch@ == branch_name@, None);
    }
    let mut m = owned("No worktree found for branch '");
    push_str(&mut m, branch_name);
    push_str(&mut m, "'.");
    Err(m)
}

/// The default-branch worktree, for `wt gco` without a branch.
pub fn resolve_default_worktree_in(worktrees: Vec<Worktree>) -> (r: Result<Worktree, String>)
    ensures
        match (r, first_main(worktrees@)) {
            (Ok(w), Some(i)) => w == worktrees@[i],
            (Err(e), None) => e@ == "No default-branch worktree found."@,
            _ => false,
        },
{
    let mut i: usize = 0;
    while i < worktrees.len()
        invariant
            i <= worktrees@.len(),
            forall|j: int| 0 <= j < i ==> !worktrees@[j].is_main,
        decreases worktrees@.len() - i,
    {
        if worktrees[i].is_main {
            proof {
                crate::app::lemma_first_where(worktrees@, |w: Worktree| w.is_main, Some(i));
            }
            return Ok(worktrees[i].duplicate());
        }
        i += 1;
    }
    proof {
        crate::app::lemma_first_where(worktrees@, |w: Worktree| w.is_main, None);
    }
    Err(owned("No default-branch worktree found."))
}

/// The worktree that `wt d [branch]` means: the branch's, else the current one.
pub open spec fn delete_candidate(ws: Seq<Worktree>, branch: Option<Seq<char>>) -> Result<
    Worktree,
    Seq<char>,
> {
    match branch {
        Some(b) => match worktree_on(ws, b) {
            Some(i) => Ok(ws[i]),
            None => Err("No worktree found for branch '"@ + b + "'."@),
        },
        None => match first_current(ws) {
            Some(i) => Ok(ws[i]),
            None => Err(
                "Could not determine the current worktree from this directory. Pass a branch name explicitly."@,
            ),
        },
    }
}

/// The worktree that `wt d [branch]` removes; the default worktree is never removed.
pub open spec fn delete_target(ws: Seq<Worktree>, branch: Option<Seq<char>>) -> Result<
    Worktree,
    Seq<char>,
> {
    match delete_candidate(ws, branch) {
        Ok(w) => if w.is_main {
            Err("Refusing to delete the default worktree '"@ + w.branch@ + "'."@)
        } else {
            Ok(w)
        },
        Err(e) => Err(e),
    }
}

/// `wt d` never removes the default worktree: whatever it picks is not the default one.
pub proof fn lemma_cli_delete_spares_default(ws: Seq<Worktree>, branch: Option<Seq<char>>)
    ensures
        delete_target(ws, branch) matches Ok(w) ==> !w.is_main,
{
}

/// The optional characters of an optional string slice.
pub open spec fn opt_str(o: Option<&str>) -> Option<Seq<char>> {
    match o {
        Some(b) => Some(b@),
        None => None,
    }
}

/// The first worktree the shell stands in.
fn first_current_index(ws: &Vec<Worktree>) -> (r: Option<usize>)
    ensures
        opt_index(r) == first_current(ws@),
        r matches Some(k) ==> k < ws@.len(),
{
    let mut i: usize = 0;
    while i < ws.len()
        invariant
            i <= ws@.len(),
            forall|j: int| 0 <= j < i ==> !ws@[j].is_current,
        decreases ws@.len() - i,
    {
        if ws[i].is_current {
            proof {
                crate::app::lemma_first_where(ws@, |w: Worktree| w.is_current, Some(i));
            }
            return Some(i);
        }
        i += 1;
    }
    proof {
        crate::app::lemma_first_where(ws@, |w: Worktree| w.is_current, None);
    }
    None
}

/// The worktree that `wt d [branch]` means.
fn find_delete_candidate(worktrees: Vec<Worktree>, branch_name: Option<&str>) -> (r: Result<
    Worktree,
    String,
>)
    ensures
        match (r, delete_candidate(worktrees@, opt_str(branch_name))) {
            (Ok(w), Ok(v)) => w == v,
            (Err(e), Err(m)) => e@ == m,
            _ => false,
        },
{
    match branch_name {
        Some(b) => resolve_worktree_by_branch_in(worktrees, b),
        None => current_candidate(worktrees),
    }
}

/// The worktree the shell stands in, for `wt d` without a branch.
fn current_candidate(worktrees: Vec<Worktree>) -> (r: Result<Worktree, String>)
    ensures
        match (r, first_current(worktrees@)) {
            (Ok(w), Some(i)) => w == worktrees@[i],
            (Err(e), None) => e@
                == "Could not determine the current worktree from this directory. Pass a branch name explicitly."@,
            _ => false,
        },
{
    match first_current_index(&worktrees) {
        Some(k) => Ok(worktrees[k].duplicate()),
        None => Err(
            owned(
                "Could not determine the current worktree from this directory. Pass a branch name explicitly.",
            ),
        ),
    }
}

/// The worktree that `wt d [branch]` removes.
pub fn resolve_delete_target_in(worktrees: Vec<Worktree>, branch_name: Option<&str>) -> (r: Result<
    Worktree,
    String,
>)
    ensures
        match (r, delete_target(worktrees@, opt_str(branch_name))) {
            (Ok(w), Ok(v)) => w == v,
            (Err(e), Err(m)) => e@ == m,
            _ => false,
        },
{
    match find_delete_candidate(worktrees, branch_name) {
        Ok(w) => {
            if w.is_main {
                let mut m = owned("Refusing to delete the default worktree '");
                push_str(&mut m, w.branch.as_str());
                push_str(&mut m, "'.");
                Err(m)
            } else {
                Ok(w)
            }
        },
        Err(e) => Err(e),
    }
}

/// Whether the text typed at the delete prompt confirms: it is the branch name.
pub fn delete_confirmed(typed: &str, branch: &str) -> (r: bool)
    ensures
        r == (trim_seq(typed@) == branch@),
{
    let t = trim(typed);
    str_eq(t.as_str(), branch)
}

/// Where `wt clone <source> [dest]` clones to: the given destination (relative ones
/// under the working directory), else a directory named after the repository.
pub open spec fn cli_clone_dest(cwd: Seq<char>, source: Seq<char>, dest: Option<Seq<char>>) -> Seq<
    char,
> {
    match dest {
        Some(d) => join_path(cwd, d),
        None => clone_dest(source, cwd),
    }
}

/// Where `wt clone` clones to.
pub fn resolve_cli_clone_dest(cwd: &str, repo_source: &str, dest: Option<&str>) -> (r: String)
    ensures
        r@ == cli_clone_dest(
            cwd@,
            repo_source@,
            match dest {
                Some(d) => Some(d@),
                None => None,
            },
        ),
{
    match dest {
        Some(d) => worktree_path_for_name(cwd, d),
        None => dest_from_url(repo_source, cwd),
    }
}

/// A path for display, with the home directory written `~`.
pub open spec fn home_display(path: Seq<char>, home: Option<Seq<char>>) -> Seq<char> {
    match home {
        None => path,
        Some(h) => {
            let h2 = trim_end_char_seq(h, '/');
            if h2.len() > 0 && path == h2 {
                "~"@
            } else if h2.len() > 0 && has_prefix(path, h2 + "/"@) {
                "~/"@ + path.skip((h2 + "/"@).len() as int)
            } else {
                path
            }
        },
    }
}

/// A path for display, with the home directory written `~`.
pub fn display_path_with_home(path: &str, home: Option<&str>) -> (r: String)
    ensures
        r@ == home_display(
            path@,
            match home {
                Some(h) => Some(h@),
                None => None,
            },
        ),
{
    match home {
        None => owned(path),
        Some(h) => {
            let h2 = trim_end_char(h, '/');
            if h2.as_str().is_empty() {
                return owned(path);
            }
            if str_eq(path, h2.as_str()) {
                return owned("~");
            }
            let mut prefix = h2.clone();
            push_str(&mut prefix, "/");
            match strip_prefix(path, prefix.as_str()) {
                Some(rest) => {
                    let mut r = owned("~/");
                    push_str(&mut r, rest.as_str());
                    r
                },
                None => owned(path),
            }
        },
    }
}

/// Where the navigator works: the repository (or workspace) around the working directory.
#[derive(Debug, Clone)]
pub struct RepoContext {
    pub cwd: String,
    pub repo_root: String,
    pub is_workspace: bool,
    pub no_repo: bool,
}

/// The context of `cwd`: a workspace root found (or detected) there wins over the
/// repository root git reports; with neither, the navigator works in `cwd` itself.
pub fn repo_context(cwd: &str, workspace_root: Option<String>, repo_root: Option<String>) -> (r:
    RepoContext)
    ensures
        r.cwd@ == cwd@,
        r.is_workspace == workspace_root is Some,
        r.no_repo == (workspace_root is None && repo_root is None),
        r.repo_root@ == (match workspace_root {
            Some(w) => w@,
            None => match repo_root {
                Some(p) => p@,
                None => cwd@,
            },
        }),
{
    let is_workspace = workspace_root.is_some();
    let no_repo = workspace_root.is_none() && repo_root.is_none();
    let root = match workspace_root {
        Some(w) => w,
        None => match repo_root {
            Some(p) => p,
            None => owned(cwd),
        },
    };
    RepoContext { cwd: owned(cwd), repo_root: root, is_workspace, no_repo }
}

/// The base branch of `wt b`, given what git reported for the current and the default
/// branch.
pub fn branch_base_choice(
    base: &BranchBase,
    current: Result<String, String>,
    default: Result<String, String>,
) -> (r: Result<String, String>)
    ensures
        match base {
            BranchBase::Auto => match current {
                Ok(c) => r == Ok::<String, String>(c),
                Err(_) => r == default,
            },
            BranchBase::Current => match current {
                Ok(c) => r == Ok::<String, String>(c),
                Err(_) => r matches Err(e) && e@
                    == "Could not resolve the current branch from this directory. Run inside a worktree or use `--from-default` / `--base`."@,
            },
            BranchBase::Default => r == default,
            BranchBase::Explicit(b) => r == Ok::<String, String>(*b),
        },
{
    match base {
        BranchBase::Auto => match current {
            Ok(c) => Ok(c),
            Err(_) => default,
        },
        BranchBase::Current => match current {
            Ok(c) => Ok(c),
            Err(_) => Err(
                owned(
                    "Could not resolve the current branch from this directory. Run inside a worktree or use `--from-default` / `--base`.",
                ),
            ),
        },
        BranchBase::Default => default,
        BranchBase::Explicit(b) => Ok(b.clone()),
    }
}

} // verus!
