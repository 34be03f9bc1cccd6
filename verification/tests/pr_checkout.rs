use worktree_navigator::pr_checkout::{pr_ref_string, push_decimal, FetchOutcome, PrCheckout};

#[test]
fn pull_request_numbers_print_in_decimal() {
    assert_eq!(pr_ref_string(0), "#0");
    assert_eq!(pr_ref_string(42), "#42");
    let mut s = String::from("n=");
    push_decimal(&mut s, 4_294_967_295);
    assert_eq!(s, "n=4294967295");
}

#[test]
fn pr_checkout_reports_each_step() {
    let mut run = PrCheckout::start(17);
    run.head_branch(true, "feature/login\n", "").expect("branch resolves");
    let dest = run.fetched(FetchOutcome::Failed("  already up to date \n".to_string()), "/work/repo");
    assert_eq!(dest, "/work/repo/feature/login");
    let (messages, dest) = run.finish(true, "");
    assert_eq!(dest, "/work/repo/feature/login");
    assert_eq!(
        messages,
        vec![
            "$ gh pr view #17".to_string(),
            "✓ Resolved head branch: feature/login".to_string(),
            "$ git fetch origin feature/login:feature/login".to_string(),
            "  (fetch note: already up to date)".to_string(),
            "$ git worktree add /work/repo/feature/login feature/login".to_string(),
            "✓ PR #17 checked out at /work/repo/feature/login".to_string(),
        ]
    );
}

#[test]
fn pr_checkout_fails_without_a_head_branch() {
    let mut run = PrCheckout::start(9);
    assert_eq!(run.head_branch(false, "", " no such PR \n"), Err("no such PR".to_string()));
    assert_eq!(
        run.head_branch(true, "  \n", ""),
        Err("Could not resolve head branch for PR #9".to_string())
    );
    assert_eq!(run.messages, vec!["$ gh pr view #9".to_string()]);
}

#[test]
fn failed_worktree_add_is_reported_in_the_lines() {
    let mut run = PrCheckout::start(3);
    run.head_branch(true, "fix", "").unwrap();
    run.fetched(FetchOutcome::NotRun("git missing".to_string()), "/w");
    let (messages, _) = run.finish(false, "fatal: exists\n");
    assert_eq!(messages[3], "  (fetch warn: git missing)");
    assert_eq!(messages.last().unwrap(), "✗ fatal: exists");
}
