use worktree_navigator::app::App;
use worktree_navigator::controller::open_action;
use worktree_navigator::events::{handle_key, is_ready};
use worktree_navigator::picking::toggle_delete_selection;
use worktree_navigator::session::resolve_delete_target_in;
use worktree_navigator::text_input::{KeyCode, KeyModifiers};
use worktree_navigator::types::{ActiveAction, Worktree};

fn wt(path: &str, branch: &str, is_main: bool, is_current: bool) -> Worktree {
    Worktree { path: path.to_string(), branch: branch.to_string(), is_main, is_current, has_secrets: false }
}

fn app() -> App {
    let mut app = App::new("/repo".to_string());
    app.worktrees = vec![
        wt("/repo/main", "main", true, false),
        wt("/repo/a", "a", false, true),
        wt("/repo/b", "b", false, false),
    ];
    app
}

#[test]
fn toggling_a_worktree_twice_restores_the_selection() {
    let mut app = app();
    open_action(&mut app, ActiveAction::Delete);
    toggle_delete_selection(&mut app, 2);
    let once = app.delete.checked.clone();
    toggle_delete_selection(&mut app, 1);
    toggle_delete_selection(&mut app, 1);
    assert_eq!(app.delete.checked, once);
    toggle_delete_selection(&mut app, 2);
    assert!(app.delete.checked.is_empty());
}

#[test]
fn deleting_never_picks_the_default_worktree() {
    let ws = vec![wt("/repo/main", "main", true, true), wt("/repo/a", "a", false, false)];
    assert_eq!(
        resolve_delete_target_in(ws.clone(), Some("main")).map(|w| w.branch),
        Err("Refusing to delete the default worktree 'main'.".to_string())
    );
    assert_eq!(
        resolve_delete_target_in(ws.clone(), None).map(|w| w.branch),
        Err("Refusing to delete the default worktree 'main'.".to_string())
    );
    assert_eq!(resolve_delete_target_in(ws, Some("a")).map(|w| w.branch), Ok("a".to_string()));

    let mut app = app();
    open_action(&mut app, ActiveAction::Delete);
    toggle_delete_selection(&mut app, 0);
    assert!(app.delete.checked.is_empty());
}

#[test]
fn keys_in_the_overlays_keep_the_state_ready() {
    let mut app = app();
    assert!(is_ready(&app));
    handle_key(&mut app, KeyCode::Char('b'), KeyModifiers::none());
    for c in "feature".chars() {
        handle_key(&mut app, KeyCode::Char(c), KeyModifiers::none());
        assert!(is_ready(&app));
    }
    handle_key(&mut app, KeyCode::Left, KeyModifiers::ctrl());
    handle_key(&mut app, KeyCode::Backspace, KeyModifiers::none());
    assert!(is_ready(&app));
    handle_key(&mut app, KeyCode::Esc, KeyModifiers::none());
    handle_key(&mut app, KeyCode::Char('d'), KeyModifiers::none());
    handle_key(&mut app, KeyCode::Char(' '), KeyModifiers::none());
    handle_key(&mut app, KeyCode::Down, KeyModifiers::none());
    handle_key(&mut app, KeyCode::Char(' '), KeyModifiers::none());
    assert!(is_ready(&app));
    assert_eq!(app.delete.checked, vec![1, 2]);
}

#[test]
fn esc_on_an_overlay_returns_to_the_list() {
    for shortcut in ['b', 'm', 'p', 'd', 's', 'c', 'o', 'r'] {
        let mut app = app();
        app.selected_index = worktree_navigator::app::COMMAND_COUNT + 2;
        handle_key(&mut app, KeyCode::Char(shortcut), KeyModifiers::none());
        assert_ne!(app.active_action, ActiveAction::Idle, "shortcut {shortcut}");
        handle_key(&mut app, KeyCode::Esc, KeyModifiers::none());
        assert_eq!(app.active_action, ActiveAction::Idle, "shortcut {shortcut}");
        assert!(!app.should_quit);
    }
}
