use worktree_navigator::app::{App, COMMAND_COUNT};
use worktree_navigator::controller::open_action;
use worktree_navigator::events::handle_paste;
use worktree_navigator::session::resolve_worktree_by_branch_in;
use worktree_navigator::text_input;
use worktree_navigator::types::{ActiveAction, CheckoutRemotePhase, OptionsPhase, Worktree};

fn test_app() -> App {
    App::new(".".to_string())
}

fn worktree(path: &str, branch: &str, is_main: bool, is_current: bool) -> Worktree {
    Worktree {
        path: path.to_string(),
        branch: branch.to_string(),
        is_main,
        is_current,
        has_secrets: false,
    }
}

#[test]
fn text_input_overlay_active_only_for_editable_overlays() {
    let mut app = test_app();

    assert!(!text_input::is_active(&app));

    app.active_action = ActiveAction::NewBranch;
    assert!(text_input::is_active(&app));
    app.new_branch.loading = true;
    assert!(!text_input::is_active(&app));

    app = test_app();
    app.active_action = ActiveAction::Rename;
    assert!(text_input::is_active(&app));
    app.rename.loading = true;
    assert!(!text_input::is_active(&app));

    app = test_app();
    app.active_action = ActiveAction::SyncPr;
    assert!(text_input::is_active(&app));
    app.sync.pr_loading = true;
    assert!(!text_input::is_active(&app));

    app = test_app();
    app.active_action = ActiveAction::CloneRepo;
    assert!(text_input::is_active(&app));
    app.clone.loading = true;
    assert!(!text_input::is_active(&app));

    app = test_app();
    app.active_action = ActiveAction::CheckoutRemote;
    app.checkout_remote.phase = CheckoutRemotePhase::SelectRemote;
    assert!(text_input::is_active(&app));
    app.checkout_remote.phase = CheckoutRemotePhase::EnterBranch;
    assert!(text_input::is_active(&app));
    app.checkout_remote.phase = CheckoutRemotePhase::FetchingRemote;
    assert!(!text_input::is_active(&app));

    app = test_app();
    app.active_action = ActiveAction::Options;
    app.options.phase = OptionsPhase::Editing;
    assert!(text_input::is_active(&app));
    app.options.phase = OptionsPhase::BrowsingScripts;
    assert!(!text_input::is_active(&app));
}

#[test]
fn handle_paste_inserts_into_all_text_input_overlays() {
    let editable_states = [
        (ActiveAction::NewBranch, CheckoutRemotePhase::SelectRemote),
        (ActiveAction::Rename, CheckoutRemotePhase::SelectRemote),
        (ActiveAction::SyncPr, CheckoutRemotePhase::SelectRemote),
        (ActiveAction::CloneRepo, CheckoutRemotePhase::SelectRemote),
        (ActiveAction::CheckoutRemote, CheckoutRemotePhase::SelectRemote),
        (ActiveAction::CheckoutRemote, CheckoutRemotePhase::EnterBranch),
    ];

    for (action, phase) in editable_states {
        let mut app = test_app();
        app.active_action = action;
        app.checkout_remote.phase = phase;

        handle_paste(&mut app, "feature/test\n");

        assert_eq!(app.input_buffer, "feature/test");
        assert_eq!(app.input_cursor, "feature/test".chars().count());
    }

    let mut app = test_app();
    app.active_action = ActiveAction::Options;
    app.options.phase = OptionsPhase::Editing;

    handle_paste(&mut app, "pnpm i\n");

    assert_eq!(app.input_buffer, "pnpm i");
    assert_eq!(app.input_cursor, "pnpm i".chars().count());
}

#[test]
fn handle_paste_ignores_non_editable_states() {
    let mut app = test_app();
    app.active_action = ActiveAction::SyncTrees;

    handle_paste(&mut app, "feature/test");
    assert!(app.input_buffer.is_empty());

    app.active_action = ActiveAction::CheckoutRemote;
    app.checkout_remote.phase = CheckoutRemotePhase::CreatingWorktree;

    handle_paste(&mut app, "feature/test");
    assert!(app.input_buffer.is_empty());
}

#[test]
fn resolve_worktree_by_branch_matches_existing_branch() {
    let worktree = resolve_worktree_by_branch_in(
        vec![
            worktree("/repo/main", "main", true, false),
            worktree("/repo/feature-test", "feature/test", false, true),
        ],
        "feature/test",
    )
    .expect("branch should resolve");

    assert_eq!(worktree.path, "/repo/feature-test");
}

#[test]
fn resolve_worktree_by_branch_errors_for_missing_branch() {
    let err = resolve_worktree_by_branch_in(Vec::new(), "feature/test")
        .expect_err("missing branch should fail");

    assert_eq!(err.to_string(), "No worktree found for branch 'feature/test'.");
}

#[test]
fn new_branch_uses_default_worktree_base_when_command_is_selected() {
    let mut app = test_app();
    app.worktrees = vec![
        worktree("/repo/main", "main", true, false),
        worktree("/repo/feature-test", "feature/test", false, true),
    ];
    app.selected_index = 0;

    open_action(&mut app, ActiveAction::NewBranch);

    assert_eq!(app.new_branch.base.as_deref(), Some("main"));
}

#[test]
fn new_branch_prefers_selected_worktree_base() {
    let mut app = test_app();
    app.worktrees = vec![
        worktree("/repo/main", "main", true, false),
        worktree("/repo/feature-test", "feature/test", false, true),
    ];
    app.selected_index = COMMAND_COUNT + 1;

    open_action(&mut app, ActiveAction::NewBranch);

    assert_eq!(app.new_branch.base.as_deref(), Some("feature/test"));
}
