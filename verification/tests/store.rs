use worktree_navigator::store::{cached_worktrees, save_worktrees, set_current_flags, State};
use worktree_navigator::types::Worktree;

fn worktree(path: &str, branch: &str) -> Worktree {
    Worktree {
        path: path.to_string(),
        branch: branch.to_string(),
        is_main: branch == "main",
        is_current: false,
        has_secrets: false,
    }
}

#[test]
fn saved_worktrees_read_back() {
    let mut state = State::empty();
    assert!(cached_worktrees(&state, "/repo").is_none());
    save_worktrees(&mut state, "/repo", &[worktree("/repo/main", "main")]);
    save_worktrees(&mut state, "/other", &[worktree("/other/x", "x")]);
    let got = cached_worktrees(&state, "/repo").unwrap();
    assert_eq!(got.len(), 1);
    assert_eq!(got[0].path, "/repo/main");

    save_worktrees(&mut state, "/repo", &[worktree("/repo/a", "a"), worktree("/repo/b", "b")]);
    let got = cached_worktrees(&state, "/repo").unwrap();
    assert_eq!(got.len(), 2);
    assert_eq!(got[1].branch, "b");
    assert_eq!(state.worktrees.len(), 2);
    assert_eq!(cached_worktrees(&state, "/other").unwrap()[0].path, "/other/x");
}

#[test]
fn current_flags_follow_the_working_directory() {
    let mut ws = vec![worktree("/r/main", "main"), worktree("/r/f", "f")];
    ws[0].is_current = true;
    set_current_flags(&mut ws, &vec![false, true]);
    assert!(!ws[0].is_current);
    assert!(ws[1].is_current);
    assert_eq!(ws[1].path, "/r/f");
}
