use worktree_navigator::app::{App, ConfigChange, PendingConsoleOperation, COMMAND_COUNT};
use worktree_navigator::config::{PostCreateScript, RepoConfig};
use worktree_navigator::controller::{
    apply_branch_check, apply_clone_event, apply_config_save, apply_fetch_result,
    apply_remote_list, apply_sync_pr_event, checkout_remote_ghost, open_action,
};
use worktree_navigator::events::{handle_key, handle_mouse, MouseEventKind};
use worktree_navigator::picking::{delete_cursor_idx, toggle_delete_selection};
use worktree_navigator::session::{
    apply_delete_result, apply_initial_worktrees, display_path_with_home, needs_loading_animation,
    resolve_cli_clone_dest, resolve_default_worktree_in, resolve_delete_target_in,
    select_worktree_by_path, take_console_operation, take_copy_request, take_sync_request,
};
use worktree_navigator::text_input::{KeyCode, KeyModifiers};
use worktree_navigator::types::{ActiveAction, CloneEvent, CopySecretsPhase, SyncPrEvent, Worktree};

fn wt(path: &str, branch: &str, is_main: bool, is_current: bool) -> Worktree {
    Worktree {
        path: path.to_string(),
        branch: branch.to_string(),
        is_main,
        is_current,
        has_secrets: false,
    }
}

fn app_with_worktrees() -> App {
    let mut app = App::new("/repo".to_string());
    app.worktrees = vec![
        wt("/repo/main", "main", true, false),
        wt("/repo/a", "a", false, true),
        wt("/repo/b", "b", false, false),
    ];
    app
}

fn key(app: &mut App, code: KeyCode) {
    handle_key(app, code, KeyModifiers::none());
}

fn type_text(app: &mut App, text: &str) {
    for c in text.chars() {
        key(app, KeyCode::Char(c));
    }
}

#[test]
fn main_list_navigation_wraps_and_quits() {
    let mut app = app_with_worktrees();
    key(&mut app, KeyCode::Up);
    assert_eq!(app.selected_index, COMMAND_COUNT + 2);
    key(&mut app, KeyCode::Down);
    assert_eq!(app.selected_index, 0);
    handle_key(&mut app, KeyCode::Char('j'), KeyModifiers::ctrl());
    assert_eq!(app.selected_index, COMMAND_COUNT + 2);
    handle_key(&mut app, KeyCode::Up, KeyModifiers::ctrl());
    assert_eq!(app.selected_index, COMMAND_COUNT);
    key(&mut app, KeyCode::Enter);
    assert!(app.should_quit);
    assert_eq!(app.exit_path.as_deref(), Some("/repo/main"));

    let mut app = app_with_worktrees();
    handle_key(&mut app, KeyCode::Char('c'), KeyModifiers::ctrl());
    assert!(app.should_quit);
    let mut app = app_with_worktrees();
    key(&mut app, KeyCode::Char('q'));
    assert!(app.should_quit);
}

#[test]
fn shortcuts_open_overlays_and_text_keys_edit() {
    let mut app = app_with_worktrees();
    key(&mut app, KeyCode::Char('b'));
    assert_eq!(app.active_action, ActiveAction::NewBranch);
    type_text(&mut app, "feat x");
    assert_eq!(app.input_buffer, "feat x");
    handle_key(&mut app, KeyCode::Left, KeyModifiers::ctrl());
    assert_eq!(app.input_cursor, 5);
    key(&mut app, KeyCode::Backspace);
    assert_eq!(app.input_buffer, "featx");
    key(&mut app, KeyCode::Home);
    key(&mut app, KeyCode::Delete);
    assert_eq!(app.input_buffer, "eatx");
    key(&mut app, KeyCode::End);
    assert_eq!(app.input_cursor, 4);
    handle_key(&mut app, KeyCode::Char('z'), KeyModifiers::ctrl());
    assert_eq!(app.input_buffer, "eatx");
    key(&mut app, KeyCode::Enter);
    assert_eq!(app.new_branch.check_pending.as_deref(), Some("eatx"));
    apply_branch_check(&mut app, Ok(false));
    assert!(app.new_branch.loading);
    assert_eq!(app.new_branch.pending.as_deref(), Some("eatx"));
}

#[test]
fn existing_branch_asks_before_reuse() {
    let mut app = app_with_worktrees();
    open_action(&mut app, ActiveAction::NewBranch);
    type_text(&mut app, "b");
    key(&mut app, KeyCode::Enter);
    apply_branch_check(&mut app, Ok(true));
    assert_eq!(app.new_branch.confirm_existing.as_deref(), Some("b"));
    key(&mut app, KeyCode::Char('y'));
    assert!(app.new_branch.use_existing);
    assert_eq!(app.new_branch.pending.as_deref(), Some("b"));

    let mut app = app_with_worktrees();
    open_action(&mut app, ActiveAction::NewBranch);
    type_text(&mut app, "x");
    key(&mut app, KeyCode::Enter);
    apply_branch_check(&mut app, Err("boom".to_string()));
    assert_eq!(app.overlay_error.as_deref(), Some("Failed to inspect branch: boom"));
}

#[test]
fn rename_refuses_default_and_taken_names() {
    let mut app = app_with_worktrees();
    app.selected_index = COMMAND_COUNT;
    open_action(&mut app, ActiveAction::Rename);
    assert_eq!(app.active_action, ActiveAction::Idle);
    assert_eq!(app.overlay_error.as_deref(), Some("The default worktree can't be renamed."));

    let mut app = app_with_worktrees();
    app.selected_index = COMMAND_COUNT + 1;
    open_action(&mut app, ActiveAction::Rename);
    assert_eq!(app.input_buffer, "a");
    key(&mut app, KeyCode::Backspace);
    type_text(&mut app, "b");
    key(&mut app, KeyCode::Enter);
    assert_eq!(app.overlay_error.as_deref(), Some("'b' is already checked out."));
    key(&mut app, KeyCode::Backspace);
    type_text(&mut app, "c");
    key(&mut app, KeyCode::Enter);
    assert!(app.rename.loading);
    let (w, b) = app.rename.pending.clone().unwrap();
    assert_eq!(w.path, "/repo/a");
    assert_eq!(b, "c");
}

#[test]
fn pull_request_numbers_are_checked() {
    let mut app = app_with_worktrees();
    open_action(&mut app, ActiveAction::SyncPr);
    type_text(&mut app, "#12a");
    key(&mut app, KeyCode::Enter);
    assert_eq!(app.overlay_error.as_deref(), Some("Invalid PR number. Use #123 or 123."));
    key(&mut app, KeyCode::Backspace);
    key(&mut app, KeyCode::Enter);
    assert!(app.sync.pr_loading);
    assert!(matches!(
        app.console.pending_operation,
        Some(PendingConsoleOperation::SyncPr { pr_number: 12 })
    ));
    let op = take_console_operation(&mut app);
    assert!(op.is_some());
    assert!(app.console.handoff_active);

    apply_sync_pr_event(&mut app, SyncPrEvent::Progress { line: "fetching".to_string() });
    assert_eq!(app.sync.pr_output, vec!["fetching".to_string()]);
    let follow = apply_sync_pr_event(
        &mut app,
        SyncPrEvent::Finished {
            worktree_path: "/repo/pr-12".to_string(),
            branch: "pr/12".to_string(),
            base_branch: None,
            created: true,
        },
    );
    assert!(follow.is_none());
    assert!(app.should_quit);
    assert_eq!(app.exit_path.as_deref(), Some("/repo/pr-12"));
    assert!(app.refresh_pending);
}

#[test]
fn created_pull_request_worktree_runs_setup_scripts() {
    let mut app = app_with_worktrees();
    app.repo_config = RepoConfig {
        post_create_scripts: vec![
            PostCreateScript { command: "pnpm i".to_string(), enabled: true },
            PostCreateScript { command: "  ".to_string(), enabled: true },
            PostCreateScript { command: "make".to_string(), enabled: false },
        ],
    };
    let follow = apply_sync_pr_event(
        &mut app,
        SyncPrEvent::Finished {
            worktree_path: "/repo/pr-1".to_string(),
            branch: "pr/1".to_string(),
            base_branch: Some("main".to_string()),
            created: true,
        },
    )
    .expect("setup scripts should be requested");
    assert_eq!(follow.scripts.len(), 1);
    assert_eq!(follow.scripts[0].command, "pnpm i");
    assert_eq!(follow.worktree_path, "/repo/pr-1");
    assert!(!app.should_quit);
}

#[test]
fn delete_overlay_checks_confirms_and_redirects() {
    let mut app = app_with_worktrees();
    app.selected_index = COMMAND_COUNT + 2;
    open_action(&mut app, ActiveAction::Delete);
    assert_eq!(app.overlay_index, 2);
    key(&mut app, KeyCode::Up);
    assert_eq!(app.overlay_index, 1);
    key(&mut app, KeyCode::Char(' '));
    key(&mut app, KeyCode::Down);
    key(&mut app, KeyCode::Char(' '));
    assert_eq!(app.delete.checked, vec![1, 2]);
    key(&mut app, KeyCode::Enter);
    assert!(app.delete.confirming);
    assert_eq!(app.delete.confirm_targets, vec![1, 2]);
    key(&mut app, KeyCode::Char('y'));
    assert!(app.delete.warn_current);
    key(&mut app, KeyCode::Enter);
    assert!(!app.delete.warn_current);
    assert!(app.delete.confirm_targets.is_empty());

    key(&mut app, KeyCode::Enter);
    key(&mut app, KeyCode::Char('y'));
    key(&mut app, KeyCode::Char('y'));
    assert!(app.delete.loading);
    assert_eq!(app.delete.redirect_path.as_deref(), Some("/repo/main"));
    assert_eq!(app.delete.pending, Some(vec!["/repo/a".to_string(), "/repo/b".to_string()]));
    app.delete.pending = None;
    apply_delete_result(&mut app, Ok(()));
    assert!(app.should_quit);
    assert_eq!(app.exit_path.as_deref(), Some("/repo/main"));
}

#[test]
fn delete_selection_toggles_and_skips_protected_worktrees() {
    let mut app = app_with_worktrees();
    app.active_action = ActiveAction::Delete;
    toggle_delete_selection(&mut app, 0);
    assert!(app.delete.checked.is_empty());
    toggle_delete_selection(&mut app, 2);
    toggle_delete_selection(&mut app, 1);
    assert_eq!(app.delete.checked, vec![1, 2]);
    toggle_delete_selection(&mut app, 2);
    assert_eq!(app.delete.checked, vec![1]);
    app.overlay_index = 0;
    assert_eq!(delete_cursor_idx(&app), 1);
}

#[test]
fn copy_secrets_overlay_picks_source_and_target() {
    let mut app = app_with_worktrees();
    app.worktrees[0].has_secrets = true;
    app.worktrees[2].has_secrets = true;
    open_action(&mut app, ActiveAction::CopySecrets);
    assert_eq!(app.copy_secrets.target_idx, 1);
    key(&mut app, KeyCode::Enter);
    assert_eq!(app.overlay_error.as_deref(), Some("this worktree doesn't contain secrets"));
    key(&mut app, KeyCode::Up);
    key(&mut app, KeyCode::Enter);
    assert_eq!(app.copy_secrets.phase, CopySecretsPhase::SelectTarget);
    assert_eq!(app.copy_secrets.source_idx, Some(0));
    key(&mut app, KeyCode::Down);
    key(&mut app, KeyCode::Enter);
    assert_eq!(app.copy_secrets.phase, CopySecretsPhase::ConfirmOverwrite);
    key(&mut app, KeyCode::Char('n'));
    assert_eq!(app.copy_secrets.phase, CopySecretsPhase::SelectTarget);
    key(&mut app, KeyCode::Enter);
    key(&mut app, KeyCode::Char('y'));
    assert!(app.copy_secrets.pending && app.copy_secrets.loading);
    let (from, to) = take_copy_request(&mut app).unwrap();
    assert_eq!(from.path, "/repo/main");
    assert_eq!(to.path, "/repo/b");
}

#[test]
fn options_overlay_edits_and_saves() {
    let mut app = app_with_worktrees();
    open_action(&mut app, ActiveAction::Options);
    key(&mut app, KeyCode::Char('a'));
    key(&mut app, KeyCode::Enter);
    assert_eq!(app.overlay_error.as_deref(), Some("Command can't be empty."));
    type_text(&mut app, " pnpm i ");
    key(&mut app, KeyCode::Enter);
    let save = app.options.save_pending.clone().unwrap();
    assert_eq!(save.change, ConfigChange::Edit { appended: true });
    assert_eq!(save.config.post_create_scripts[0].command, "pnpm i");
    apply_config_save(&mut app, Ok(()));
    assert_eq!(app.repo_config.post_create_scripts.len(), 1);
    assert!(app.input_buffer.is_empty());
    key(&mut app, KeyCode::Char(' '));
    apply_config_save(&mut app, Err("disk full".to_string()));
    assert_eq!(app.overlay_error.as_deref(), Some("Failed to save post-create scripts: disk full"));
    assert!(app.repo_config.post_create_scripts[0].enabled);
    key(&mut app, KeyCode::Char('d'));
    apply_config_save(&mut app, Ok(()));
    assert!(app.repo_config.post_create_scripts.is_empty());
}

#[test]
fn clone_flow_proposes_destination_and_starts() {
    let mut app = App::new("/src".to_string());
    app.active_action = ActiveAction::CloneRepo;
    app.no_repo = true;
    type_text(&mut app, "owner/repo");
    key(&mut app, KeyCode::Enter);
    assert_eq!(app.input_buffer, "/src/repo");
    assert_eq!(app.clone.step, 1);
    key(&mut app, KeyCode::Esc);
    assert_eq!(app.input_buffer, "owner/repo");
    key(&mut app, KeyCode::Enter);
    key(&mut app, KeyCode::Enter);
    assert!(app.clone.loading);
    apply_clone_event(&mut app, CloneEvent::Error("fatal: nope".to_string()));
    assert_eq!(app.clone.error.as_deref(), Some("fatal: nope"));
    key(&mut app, KeyCode::Esc);
    key(&mut app, KeyCode::Esc);
    assert!(app.should_quit);
}

#[test]
fn checkout_remote_flow_fetches_and_completes() {
    let mut app = app_with_worktrees();
    open_action(&mut app, ActiveAction::CheckoutRemote);
    assert!(app.checkout_remote.list_pending);
    apply_remote_list(&mut app, vec!["origin".to_string()]);
    assert!(matches!(
        app.console.pending_operation,
        Some(PendingConsoleOperation::FetchRemote { .. })
    ));
    apply_fetch_result(&mut app, Ok(vec!["feature/login".to_string(), "main".to_string()]));
    type_text(&mut app, "feat");
    assert_eq!(checkout_remote_ghost(&app).as_deref(), Some("ure/login"));
    key(&mut app, KeyCode::Tab);
    assert_eq!(app.input_buffer, "feature/login");
    key(&mut app, KeyCode::Enter);
    assert_eq!(
        app.checkout_remote.pending,
        Some(("origin".to_string(), "feature/login".to_string()))
    );

    let mut app = app_with_worktrees();
    open_action(&mut app, ActiveAction::CheckoutRemote);
    apply_remote_list(&mut app, vec![]);
    assert_eq!(app.overlay_error.as_deref(), Some("No remotes configured for this repository."));
}

#[test]
fn mouse_scrolls_and_clicks_rows() {
    let mut app = app_with_worktrees();
    app.screen.item_rows = vec![(3, 0), (4, COMMAND_COUNT + 1)];
    handle_mouse(&mut app, MouseEventKind::ScrollUp, 0, 0);
    assert_eq!(app.selected_index, COMMAND_COUNT + 2);
    handle_mouse(&mut app, MouseEventKind::Moved, 1, 4);
    assert_eq!(app.screen.hovered_row, Some(4));
    handle_mouse(&mut app, MouseEventKind::LeftDown, 1, 4);
    assert!(app.should_quit);
    assert_eq!(app.exit_path.as_deref(), Some("/repo/a"));

    let mut app = app_with_worktrees();
    app.screen.item_rows = vec![(3, 0)];
    handle_mouse(&mut app, MouseEventKind::LeftDown, 1, 3);
    assert_eq!(app.active_action, ActiveAction::NewBranch);
}

#[test]
fn run_loop_helpers_follow_the_state() {
    let mut app = App::new("/repo".to_string());
    apply_initial_worktrees(&mut app, Ok(vec![wt("/r/m", "main", true, false), wt("/r/x", "x", false, true)]));
    assert_eq!(app.selected_index, COMMAND_COUNT + 1);
    assert!(!app.worktrees_loading);
    select_worktree_by_path(&mut app, "/r/m");
    assert_eq!(app.selected_index, COMMAND_COUNT);
    assert!(!needs_loading_animation(&app));
    app.sync.pending = true;
    app.sync.selected_idx = 1;
    take_sync_request(&mut app);
    assert!(matches!(
        app.console.pending_operation,
        Some(PendingConsoleOperation::SyncWorktree { .. })
    ));
}

#[test]
fn cli_choices_among_worktrees() {
    let ws = vec![wt("/r/m", "main", true, false), wt("/r/x", "x", false, true)];
    assert_eq!(resolve_default_worktree_in(ws.clone()).unwrap().path, "/r/m");
    assert_eq!(resolve_delete_target_in(ws.clone(), None).unwrap().path, "/r/x");
    assert_eq!(
        resolve_delete_target_in(ws.clone(), Some("main")).unwrap_err(),
        "Refusing to delete the default worktree 'main'."
    );
    assert_eq!(
        resolve_default_worktree_in(vec![]).unwrap_err(),
        "No default-branch worktree found."
    );
    assert_eq!(resolve_cli_clone_dest("/w", "owner/repo", None), "/w/repo");
    assert_eq!(resolve_cli_clone_dest("/w", "owner/repo", Some("x")), "/w/x");
    assert_eq!(resolve_cli_clone_dest("/w", "owner/repo", Some("/abs")), "/abs");
    assert_eq!(display_path_with_home("/home/u/src", Some("/home/u")), "~/src");
    assert_eq!(display_path_with_home("/home/u", Some("/home/u/")), "~");
    assert_eq!(display_path_with_home("/opt/x", Some("/home/u")), "/opt/x");
}
