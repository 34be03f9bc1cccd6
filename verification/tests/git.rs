use worktree_navigator::git::{
    default_branch_from_ref, dest_from_url, detect_worktree_workspace, fetch_error_message,
    github_url_from_slug, is_github_owner_repo, is_secret_file_name,
    normalize_checkout_remote_branch_input, parse_git_origin, parse_remote_branches, parse_remotes,
    parse_worktree_porcelain, protocol_from_gh_config, should_skip_dir, worktree_path_for_name,
    DirProbe, find_workspace_root, secret_files, worktree_has_secrets,
};
use worktree_navigator::config::repo_config_path;
use worktree_navigator::git::{check_tracking, merge_status, missing_remote_ref, workspace_worktrees};
use worktree_navigator::types::SyncStatus;

#[test]
fn read_git_origin_parses_and_normalizes_url() {
    assert_eq!(
        parse_git_origin("[core]\n\trepositoryformatversion = 0\n[remote \"origin\"]\n\turl = git@github.com:owner/repo.git\n\tfetch = +refs/heads/*:refs/remotes/origin/*\n"),
        Some("git@github.com:owner/repo".to_string())
    );
    assert_eq!(
        parse_git_origin("[remote \"origin\"]\n\turl = https://github.com/owner/repo\n"),
        Some("https://github.com/owner/repo".to_string())
    );
    assert_eq!(parse_git_origin("[core]\n\tbare = false\n"), None);
    assert_eq!(parse_git_origin("[remote \"upstream\"]\n\turl = x\n"), None);
    assert_eq!(
        parse_git_origin("[remote \"origin\"]\n  URL=  HTTPS://GitHub.com/A/B.git  \n"),
        None
    );
    assert_eq!(
        parse_git_origin("[remote \"origin\"]\n  url=  HTTPS://GitHub.com/A/B.git  \n"),
        Some("https://github.com/a/b".to_string())
    );
}

fn clone_of(origin: &str) -> DirProbe {
    DirProbe::Clone(Some(origin.to_string()))
}

#[test]
fn detect_returns_false_for_empty_dir() {
    assert!(!detect_worktree_workspace(&vec![]));
}

#[test]
fn detect_returns_false_for_single_main_worktree() {
    assert!(!detect_worktree_workspace(&vec![clone_of("git@github.com:owner/repo")]));
}

#[test]
fn detect_returns_true_for_two_clones_same_origin() {
    let probes = vec![clone_of("git@github.com:owner/repo"), clone_of("git@github.com:owner/repo")];
    assert!(detect_worktree_workspace(&probes));
}

#[test]
fn detect_returns_false_for_two_clones_different_origins() {
    let probes = vec![clone_of("git@github.com:owner/repo-a"), clone_of("git@github.com:owner/repo-b")];
    assert!(!detect_worktree_workspace(&probes));
}

#[test]
fn detect_returns_true_for_linked_worktree_alongside_main() {
    let probes = vec![clone_of("git@github.com:owner/repo"), DirProbe::Linked];
    assert!(detect_worktree_workspace(&probes));
}

#[test]
fn detect_ignores_clones_without_origin_and_entries_past_the_scan_limit() {
    let probes = vec![DirProbe::Clone(None), DirProbe::Linked, DirProbe::Plain, DirProbe::NotDir];
    assert!(!detect_worktree_workspace(&probes));
    let mut probes: Vec<DirProbe> = (0..50).map(|_| DirProbe::Plain).collect();
    probes.push(clone_of("o"));
    probes.push(clone_of("o"));
    assert!(!detect_worktree_workspace(&probes));
}

#[test]
fn porcelain_listing_parses_with_default_first() {
    let raw = "worktree /repo\nHEAD abc\nbare\n\nworktree /w/feature\nHEAD 111\nbranch refs/heads/feature/x\n\nworktree /w/main\nHEAD 222\nbranch refs/heads/main\n\nworktree /w/detached\nHEAD 333\ndetached\n";
    let wts = parse_worktree_porcelain(raw, &Some("main".to_string()));
    assert_eq!(wts.len(), 3);
    assert_eq!(wts[0].path, "/w/main");
    assert!(wts[0].is_main);
    assert_eq!(wts[1].branch, "feature/x");
    assert!(!wts[1].is_main);
    assert_eq!(wts[2].branch, "333");
    assert!(!wts[2].is_current && !wts[2].has_secrets);

    let wts = parse_worktree_porcelain("worktree /a\nbranch refs/heads/a\n\nworktree /b\n", &None);
    assert_eq!(wts.len(), 2);
    assert!(wts[0].is_main);
    assert_eq!(wts[0].path, "/a");
    assert_eq!(wts[1].branch, "HEAD");
    assert!(parse_worktree_porcelain("", &None).is_empty());
}

#[test]
fn clone_destinations_use_the_repo_name() {
    assert_eq!(dest_from_url("git@github.com:org/repo.git", "/src"), "/src/repo");
    assert_eq!(dest_from_url("org/repo", "/src/"), "/src/repo");
    assert_eq!(dest_from_url("https://github.com/org/repo/", "/src"), "/src/repo");
    assert_eq!(dest_from_url("plain", ""), "plain");
    assert_eq!(worktree_path_for_name("/base", "/abs"), "/abs");
    assert_eq!(worktree_path_for_name("/base", "feat/x"), "/base/feat/x");
}

#[test]
fn github_slugs_are_recognized_and_expanded() {
    assert!(is_github_owner_repo(" owner/repo "));
    assert!(!is_github_owner_repo("owner"));
    assert!(!is_github_owner_repo("owner/repo/extra"));
    assert!(!is_github_owner_repo("git@github.com:owner/repo"));
    assert!(!is_github_owner_repo("https://github.com/owner/repo"));
    assert!(!is_github_owner_repo("/abs/path"));
    assert!(!is_github_owner_repo("owner/"));
    assert_eq!(github_url_from_slug("owner/repo.git", "https"), "https://github.com/owner/repo.git");
    assert_eq!(github_url_from_slug(" owner/repo ", "ssh"), "git@github.com:owner/repo.git");
    assert_eq!(protocol_from_gh_config(" HTTPS\n"), "https");
    assert_eq!(protocol_from_gh_config("ssh"), "ssh");
    assert_eq!(protocol_from_gh_config(""), "ssh");
}

#[test]
fn remote_listings_parse() {
    assert_eq!(parse_remotes("origin\n  upstream \n\n"), vec!["origin".to_string(), "upstream".to_string()]);
    assert_eq!(
        parse_remote_branches("  origin/HEAD -> origin/main\n  origin/main\n  origin/feat/x\n  upstream/y\n", "origin"),
        vec!["main".to_string(), "feat/x".to_string()]
    );
    assert_eq!(fetch_error_message("origin", "  \n"), "git fetch origin failed");
    assert_eq!(fetch_error_message("origin", " fatal: nope \n"), "fatal: nope");
    assert_eq!(default_branch_from_ref("refs/remotes/origin/main\n"), Some("main".to_string()));
    assert_eq!(default_branch_from_ref("refs/remotes/origin/"), None);
    assert_eq!(default_branch_from_ref("garbage"), None);
}

#[test]
fn checkout_inputs_normalize() {
    assert_eq!(normalize_checkout_remote_branch_input(" origin/feat ", "origin"), Ok("feat".to_string()));
    assert_eq!(normalize_checkout_remote_branch_input("feat", "origin"), Ok("feat".to_string()));
    assert_eq!(
        normalize_checkout_remote_branch_input("origin/", "origin"),
        Err("Branch name can't be empty.".to_string())
    );
}

#[test]
fn directory_and_file_names_classify() {
    assert!(should_skip_dir("node_modules"));
    assert!(should_skip_dir(".git"));
    assert!(!should_skip_dir("src"));
    assert!(is_secret_file_name(".env.local"));
    assert!(!is_secret_file_name("env"));
}

fn strings(v: &[&str]) -> Vec<String> {
    v.iter().map(|s| s.to_string()).collect()
}

#[test]
fn lists_only_untracked_env_files_recursively() {
    // The scan found these `.env*` files outside skipped directories; git tracks the
    // template only.
    let found = strings(&[".env", ".env.default", "apps/web/.env.local"]);
    let versioned = strings(&[".env.default"]);
    assert!(should_skip_dir("node_modules"));
    assert_eq!(secret_files(&found, &versioned), strings(&[".env", "apps/web/.env.local"]));
}

#[test]
fn worktree_without_untracked_env_files_has_no_secrets() {
    assert!(!worktree_has_secrets(&strings(&[".env.example"]), &strings(&[".env.example"])));
    assert!(!worktree_has_secrets(&Vec::new(), &Vec::new()));
    assert!(worktree_has_secrets(&strings(&[".env"]), &strings(&["README.md"])));
}

#[test]
fn workspace_root_is_the_nearest_marked_ancestor() {
    let ancestors = strings(&["/w/proj/main/src", "/w/proj/main", "/w/proj", "/w", "/"]);
    assert_eq!(
        find_workspace_root(&ancestors, &vec![false, false, true, true, false]),
        Some("/w/proj".to_string())
    );
    assert_eq!(find_workspace_root(&ancestors, &vec![false; 5]), None);
}

#[test]
fn repo_config_lives_in_the_common_git_dir() {
    assert_eq!(repo_config_path("/repo/.git"), "/repo/.git/worktree-navigator.json");
    assert_eq!(repo_config_path("/repo/.git/"), "/repo/.git/worktree-navigator.json");
}

fn status_text(s: &SyncStatus) -> String {
    match s {
        SyncStatus::UpToDate => "up-to-date".to_string(),
        SyncStatus::Updated(r) => format!("updated {r}"),
        SyncStatus::Skipped(r) => format!("skipped {r}"),
        SyncStatus::Error(e) => format!("error {e}"),
    }
}

#[test]
fn fast_forward_outcomes_are_classified() {
    assert_eq!(status_text(&merge_status(true, "Already up to date.\n", "")), "up-to-date");
    assert_eq!(
        status_text(&merge_status(true, "Updating a1b2c3..d4e5f6\nFast-forward\n", "")),
        "updated a1b2c3..d4e5f6"
    );
    assert_eq!(status_text(&merge_status(true, "Fast-forward\n", "")), "updated ");
    assert_eq!(
        status_text(&merge_status(false, "", "error: Your LOCAL CHANGES would be overwritten\n")),
        "skipped dirty working tree"
    );
    assert_eq!(
        status_text(&merge_status(false, "", "  fatal: refusing to merge  \n")),
        "error fatal: refusing to merge"
    );
    assert_eq!(
        status_text(&missing_remote_ref("feature/x")),
        "skipped origin/feature/x not found on remote"
    );
}

#[test]
fn workspace_repositories_list_the_default_branch_first() {
    let repos = vec![
        ("/w/feature".to_string(), "feature".to_string()),
        ("/w/main".to_string(), "main".to_string()),
        ("/w/fix".to_string(), "fix".to_string()),
    ];
    let listed = workspace_worktrees(&repos, &Some("main".to_string()));
    let order: Vec<(&str, bool)> = listed.iter().map(|w| (w.branch.as_str(), w.is_main)).collect();
    assert_eq!(order, vec![("main", true), ("feature", false), ("fix", false)]);
    let listed = workspace_worktrees(&repos, &None);
    let order: Vec<(&str, bool)> = listed.iter().map(|w| (w.branch.as_str(), w.is_main)).collect();
    assert_eq!(order, vec![("feature", true), ("main", false), ("fix", false)]);
}

#[test]
fn local_branches_must_track_the_chosen_remote() {
    assert_eq!(check_tracking("feat", "origin", &Some("origin/feat".to_string())), None);
    assert_eq!(
        check_tracking("feat", "origin", &Some("upstream/feat".to_string())),
        Some("Local branch 'feat' tracks 'upstream/feat', not 'origin/feat'".to_string())
    );
    assert_eq!(
        check_tracking("feat", "origin", &None),
        Some("Local branch 'feat' tracks '(none)', not 'origin/feat'".to_string())
    );
}

#[test]
fn add_worktree_preserves_nested_branch_paths() {
    // A new worktree sits beside the repository, under its full branch name.
    assert_eq!(worktree_path_for_name("/ws", "feat/team/branch"), "/ws/feat/team/branch");
    assert_eq!(worktree_path_for_name("/ws/", "feat/team/branch"), "/ws/feat/team/branch");
}

#[test]
fn lists_nested_workspace_repos_recursively() {
    // The scan found two repositories, both on `main`, with no default branch known.
    let repos = vec![
        ("/ws/feat/team/branch-a".to_string(), "main".to_string()),
        ("/ws/fix/branch-b".to_string(), "main".to_string()),
    ];
    let worktrees = workspace_worktrees(&repos, &None);
    assert_eq!(worktrees.len(), 2);
    assert_eq!(worktrees[0].path, "/ws/feat/team/branch-a");
    assert_eq!(worktrees[0].branch, "main");
    assert_eq!(worktrees[1].path, "/ws/fix/branch-b");
    assert_eq!(worktrees[1].branch, "main");
}
