use worktree_navigator::update::{
    arch_tokens, fresh_cached_release, is_newer_version, is_yes, normalize_version, os_tokens,
    parse_version_numbers, select_asset_name, update_asset, UpdateCache,
};

fn strings(v: &[&str]) -> Vec<String> {
    v.iter().map(|s| s.to_string()).collect()
}

#[test]
fn versions_drop_whitespace_and_a_leading_v() {
    assert_eq!(normalize_version("  v1.2.3\n"), "1.2.3");
    assert_eq!(normalize_version("V0.9"), "0.9");
    assert_eq!(normalize_version("1.0"), "1.0");
}

#[test]
fn version_parts_are_read_from_their_leading_digits() {
    assert_eq!(parse_version_numbers("1.2.3"), vec![1, 2, 3]);
    assert_eq!(parse_version_numbers("1.2.3-beta"), vec![1, 2, 3]);
    assert_eq!(parse_version_numbers("1.x.4"), vec![1, 4]);
    assert_eq!(parse_version_numbers(""), Vec::<u64>::new());
}

#[test]
fn newer_versions_compare_part_by_part() {
    assert!(is_newer_version("v0.2.0", "0.1.9"));
    assert!(is_newer_version("1.10.0", "1.9.9"));
    assert!(is_newer_version("1.2.1", "1.2"));
    assert!(!is_newer_version("1.2.0", "1.2"));
    assert!(!is_newer_version("0.1.0", "0.1.0"));
    assert!(!is_newer_version("0.1.0", "0.2.0"));
}

#[test]
fn newer_is_irreflexive_and_asymmetric_on_samples() {
    for (a, b) in [("1.0.0", "0.9.0"), ("2.1", "2.0.5"), ("0.0.1", "0.0.0")] {
        assert!(!is_newer_version(a, a));
        assert!(is_newer_version(a, b));
        assert!(!is_newer_version(b, a));
    }
}

#[test]
fn machine_tokens_name_the_common_spellings() {
    assert_eq!(arch_tokens("x86_64"), strings(&["x86_64", "amd64"]));
    assert_eq!(arch_tokens("aarch64"), strings(&["aarch64", "arm64"]));
    assert_eq!(arch_tokens("riscv64"), strings(&["riscv64"]));
    assert_eq!(os_tokens("macos"), strings(&["apple-darwin", "darwin", "macos"]));
    assert_eq!(os_tokens("linux"), strings(&["linux"]));
}

#[test]
fn asset_selection_prefers_explicit_then_installed_then_best_match() {
    let assets = strings(&[
        "worktree-navigator-x86_64-unknown-linux-musl",
        "worktree-navigator-x86_64-unknown-linux-gnu",
        "worktree-navigator-aarch64-apple-darwin",
        "checksums.txt",
    ]);
    let arch = arch_tokens("x86_64");
    let os = os_tokens("linux");
    let env = strings(&["gnu", "musl"]);
    assert_eq!(
        select_asset_name(&assets, &Some("checksums.txt".to_string()), &None, &arch, &os, &env),
        Some("checksums.txt".to_string())
    );
    assert_eq!(
        select_asset_name(
            &assets,
            &Some("missing".to_string()),
            &Some("worktree-navigator-x86_64-unknown-linux-musl".to_string()),
            &arch,
            &os,
            &env
        ),
        Some("worktree-navigator-x86_64-unknown-linux-musl".to_string())
    );
    assert_eq!(
        select_asset_name(&assets, &None, &None, &arch, &os, &env),
        Some("worktree-navigator-x86_64-unknown-linux-gnu".to_string())
    );
    assert_eq!(
        select_asset_name(&assets, &None, &None, &arch_tokens("riscv64"), &os, &env),
        None
    );
}

#[test]
fn cached_releases_expire_after_the_time_to_live() {
    let cache = Some(UpdateCache {
        last_checked_unix: 1_000,
        latest_version: "0.3.0".to_string(),
        latest_asset_name: None,
    });
    let preferred = Some("worktree-navigator-x86_64-unknown-linux-gnu".to_string());
    let fresh = fresh_cached_release(&cache, 1_000 + 21_600, &preferred).expect("still fresh");
    assert_eq!(fresh.version, "0.3.0");
    assert_eq!(fresh.asset_name, preferred);
    assert!(fresh_cached_release(&cache, 1_000 + 21_601, &preferred).is_none());
    assert!(fresh_cached_release(&None, 5, &preferred).is_none());
}

#[test]
fn update_prompt_accepts_only_yes() {
    assert!(is_yes("y"));
    assert!(is_yes(" YES \n"));
    assert!(!is_yes("no"));
    assert!(!is_yes(""));
}

#[test]
fn update_command_reports_missing_compatible_asset() {
    assert_eq!(
        update_asset(&None),
        Err("No compatible release asset found for this wt binary. Use manual install for your platform."
            .to_string())
    );
    assert_eq!(update_asset(&Some("a".to_string())), Ok("a".to_string()));
}
