use worktree_navigator::cli::{parse_args, BranchBase, ParsedArgs};

fn args(input: &[&str]) -> Vec<String> {
    input.iter().map(|value| value.to_string()).collect()
}

fn parse(input: &[&str]) -> ParsedArgs {
    parse_args(args(input)).expect("args should parse")
}

fn parse_err(input: &[&str]) -> String {
    parse_args(args(input)).expect_err("args should fail").to_string()
}

#[test]
fn defaults_to_tui_without_args() {
    assert_eq!(parse(&[]), ParsedArgs::Tui { mark_tree: false });
}

#[test]
fn parses_legacy_flags() {
    assert_eq!(parse(&["--version"]), ParsedArgs::Version);
    assert_eq!(parse(&["-V"]), ParsedArgs::Version);
    assert_eq!(parse(&["--update"]), ParsedArgs::Update);
    assert_eq!(parse(&["--mark-tree"]), ParsedArgs::Tui { mark_tree: true });
}

#[test]
fn parses_pr_aliases_and_hash_prefix() {
    assert_eq!(parse(&["pr", "123"]), ParsedArgs::CheckoutPr { pr_number: 123 });
    assert_eq!(parse(&["checkout-pr", "#42"]), ParsedArgs::CheckoutPr { pr_number: 42 });
}

#[test]
fn parses_branch_defaults_and_base_flags() {
    assert_eq!(
        parse(&["b", "feat/test"]),
        ParsedArgs::Branch { branch_name: "feat/test".to_string(), base: BranchBase::Auto }
    );
    assert_eq!(
        parse(&["branch", "feat/test", "--from-default"]),
        ParsedArgs::Branch { branch_name: "feat/test".to_string(), base: BranchBase::Default }
    );
    assert_eq!(
        parse(&["b", "feat/test", "-d"]),
        ParsedArgs::Branch { branch_name: "feat/test".to_string(), base: BranchBase::Default }
    );
    assert_eq!(
        parse(&["b", "feat/test", "--from-current"]),
        ParsedArgs::Branch { branch_name: "feat/test".to_string(), base: BranchBase::Current }
    );
    assert_eq!(
        parse(&["b", "feat/test", "--base", "main"]),
        ParsedArgs::Branch {
            branch_name: "feat/test".to_string(),
            base: BranchBase::Explicit("main".to_string()),
        }
    );
    assert_eq!(
        parse(&["b", "feat/test", "--base=release/1"]),
        ParsedArgs::Branch {
            branch_name: "feat/test".to_string(),
            base: BranchBase::Explicit("release/1".to_string()),
        }
    );
}

#[test]
fn parses_delete_defaults_and_yes_flag() {
    assert_eq!(parse(&["d"]), ParsedArgs::Delete { branch_name: None, yes: false });
    assert_eq!(
        parse(&["delete", "feat/test", "--yes"]),
        ParsedArgs::Delete { branch_name: Some("feat/test".to_string()), yes: true }
    );
}

#[test]
fn rejects_conflicting_branch_base_flags() {
    let err = parse_args(args(&["b", "feat/test", "--from-default", "--base", "main"]))
        .expect_err("conflicting flags should fail");
    assert_eq!(
        err.to_string(),
        "Conflicting base options; cannot combine `--base` with another base selector."
    );
}

#[test]
fn help_forms_parse_to_help() {
    assert_eq!(parse(&["--help"]), ParsedArgs::Help);
    assert_eq!(parse(&["-h"]), ParsedArgs::Help);
    assert_eq!(parse(&["help"]), ParsedArgs::Help);
    assert_eq!(parse(&["help", "extra"]), ParsedArgs::Help);
}

#[test]
fn rejects_unknown_command() {
    assert_eq!(parse_err(&["frobnicate"]), "Unknown command 'frobnicate'. Run `wt --help` for usage.");
    assert_eq!(parse_err(&["--version", "x"]), "Unknown command '--version'. Run `wt --help` for usage.");
}

#[test]
fn pr_errors_cover_each_case() {
    assert_eq!(parse_err(&["pr"]), "Usage: wt pr <number>");
    assert_eq!(parse_err(&["pr", "1", "2"]), "Usage: wt pr <number>");
    assert_eq!(parse_err(&["pr", "  #  "]), "PR number cannot be empty.");
    assert_eq!(parse_err(&["pr", " 12x "]), "Invalid PR number '12x'.");
    assert_eq!(parse_err(&["pr", "4294967296"]), "Invalid PR number '4294967296'.");
    assert_eq!(parse_err(&["pr", "#0"]), "PR number must be greater than zero.");
    assert_eq!(parse(&["pr", "4294967295"]), ParsedArgs::CheckoutPr { pr_number: 4294967295 });
    assert_eq!(parse(&["pr", "##7"]), ParsedArgs::CheckoutPr { pr_number: 7 });
}

#[test]
fn branch_errors_cover_each_case() {
    let usage = "Usage: wt b <branch> [--from-default|--from-current|--base <branch>]";
    assert_eq!(parse_err(&["b"]), usage);
    assert_eq!(parse_err(&["b", "one", "two"]), usage);
    assert_eq!(parse_err(&["b", "x", "--base"]), "`--base` requires a branch name.");
    assert_eq!(parse_err(&["b", "x", "--base", "  "]), "`--base` requires a branch name.");
    assert_eq!(parse_err(&["b", "x", "--base="]), "`--base` requires a branch name.");
    assert_eq!(parse_err(&["b", "x", "--force"]), "Unknown option '--force' for `wt branch`.");
    assert_eq!(
        parse_err(&["b", "x", "--from-current", "-d"]),
        "Conflicting base options; cannot combine `--from-default` with another base selector."
    );
    assert_eq!(
        parse(&["b", "--base", "dev", "x"]),
        ParsedArgs::Branch { branch_name: "x".to_string(), base: BranchBase::Explicit("dev".to_string()) }
    );
}

#[test]
fn delete_errors_cover_each_case() {
    assert_eq!(parse_err(&["d", "-f"]), "Unknown option '-f' for `wt delete`.");
    assert_eq!(parse_err(&["d", "a", "b"]), "Usage: wt d [branch] [--yes]");
    assert_eq!(parse(&["d", "--yes"]), ParsedArgs::Delete { branch_name: None, yes: true });
}

#[test]
fn documented_commands_parse() {
    assert_eq!(
        parse(&["clone", "owner/repo"]),
        ParsedArgs::Clone { repo_source: "owner/repo".to_string(), dest: None }
    );
    assert_eq!(
        parse(&["clone", "https://github.com/owner/repo.git", "~/src/repo"]),
        ParsedArgs::Clone {
            repo_source: "https://github.com/owner/repo.git".to_string(),
            dest: Some("~/src/repo".to_string()),
        }
    );
    assert_eq!(parse_err(&["clone"]), "Usage: wt clone <repo> [dest]");
    assert_eq!(parse(&["p"]), ParsedArgs::Project { name: None });
    assert_eq!(parse(&["p", "acme-api"]), ParsedArgs::Project { name: Some("acme-api".to_string()) });
    assert_eq!(parse(&["gco"]), ParsedArgs::Checkout { branch_name: None });
    assert_eq!(
        parse(&["checkout", "feature/login"]),
        ParsedArgs::Checkout { branch_name: Some("feature/login".to_string()) }
    );
    assert_eq!(parse_err(&["gco", "a", "b"]), "Usage: wt gco [branch]");
    assert_eq!(parse(&["--install-shell"]), ParsedArgs::InstallShell { shell: None });
    assert_eq!(
        parse(&["--install-shell", "zsh"]),
        ParsedArgs::InstallShell { shell: Some("zsh".to_string()) }
    );
}
