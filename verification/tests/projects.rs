use worktree_navigator::projects::{
    default_worktree_path, find_project, format_project_list, list_projects, match_projects,
    path_file_name_of, register, register_all, register_paths, PathProbe, Project, RootProbe,
};
use worktree_navigator::types::Worktree;

fn project(name: &str) -> Project {
    Project { name: name.to_string(), path: format!("/tmp/{name}") }
}

fn worktree(path: &str, branch: &str, is_main: bool) -> Worktree {
    Worktree {
        path: path.to_string(),
        branch: branch.to_string(),
        is_main,
        is_current: false,
        has_secrets: false,
    }
}

#[test]
fn exact_name_wins_over_substring_matches() {
    let projects = vec![project("api"), project("api-gateway")];

    let matches = match_projects(&projects, "api");

    assert_eq!(matches.len(), 1);
    assert_eq!(matches[0].name, "api");
}

#[test]
fn falls_back_to_case_insensitive_and_substring_matches() {
    let projects = vec![project("Worktree-Navigator"), project("other")];

    assert_eq!(match_projects(&projects, "worktree-navigator").len(), 1);
    assert_eq!(match_projects(&projects, "navigator")[0].name, projects[0].name);
    assert!(match_projects(&projects, "missing").is_empty());
}

#[test]
fn ambiguous_queries_return_every_candidate() {
    let projects = vec![project("api-gateway"), project("api-worker")];

    assert_eq!(match_projects(&projects, "api").len(), 2);
}

#[test]
fn formats_one_line_per_project() {
    let projects = vec![project("a"), project("b")];
    assert_eq!(format_project_list(&projects), "  a  (/tmp/a)\n  b  (/tmp/b)");
    assert_eq!(format_project_list(&Vec::new()), "");
}

#[test]
fn find_project_reports_each_outcome() {
    assert_eq!(
        find_project("x", &Vec::new()).unwrap_err(),
        "No projects registered yet. Run `wt clone <repo>` to create one."
    );
    let projects = vec![project("api-gateway"), project("api-worker")];
    assert_eq!(
        find_project(" missing ", &projects).unwrap_err(),
        "No project named 'missing'.\n\nAvailable projects:\n  api-gateway  (/tmp/api-gateway)\n  api-worker  (/tmp/api-worker)"
    );
    assert_eq!(
        find_project("api", &projects).unwrap_err(),
        "'api' matches several projects:\n  api-gateway  (/tmp/api-gateway)\n  api-worker  (/tmp/api-worker)"
    );
    assert_eq!(find_project("WORKER", &projects).unwrap(), project("api-worker"));
}

#[test]
fn default_worktree_prefers_the_default_branch() {
    let p = project("acme");
    let ws = vec![worktree("/w/feat", "feat", false), worktree("/w/main", "main", true)];
    assert_eq!(default_worktree_path(&p, &ws).unwrap(), "/w/main");
    let ws = vec![worktree("/w/feat", "feat", false)];
    assert_eq!(default_worktree_path(&p, &ws).unwrap(), "/w/feat");
    assert_eq!(
        default_worktree_path(&p, &Vec::new()).unwrap_err(),
        "Project 'acme' has no worktree to open (/tmp/acme)."
    );
}

fn probe(path: &str, managed: bool, container: bool) -> PathProbe {
    PathProbe { path: path.to_string(), managed, container }
}

fn at(name: &str, path: &str) -> Project {
    Project { name: name.to_string(), path: path.to_string() }
}

#[test]
fn lists_managed_projects_by_name_then_path() {
    let registered = vec![at("zeta", "/z"), at("alpha", "/b/x"), at("gone", "/g"), at("alpha", "/a/x")];
    let listed = list_projects(&registered, &vec![true, true, false, true]);
    assert_eq!(listed, vec![at("alpha", "/a/x"), at("alpha", "/b/x"), at("zeta", "/z")]);
}

#[test]
fn listing_compares_paths_part_by_part() {
    // `a` sorts before `a-b`, although `-` sorts before `/` in the raw strings.
    let registered = vec![at("p", "/x/a-b"), at("p", "/x/a/b")];
    let listed = list_projects(&registered, &vec![true, true]);
    assert_eq!(listed, vec![at("p", "/x/a/b"), at("p", "/x/a-b")]);
}

#[test]
fn project_names_come_from_the_last_path_part() {
    assert_eq!(path_file_name_of("/work/repo"), Some("repo".to_string()));
    assert_eq!(path_file_name_of("/work/repo/"), Some("repo".to_string()));
    assert_eq!(path_file_name_of("/work/.."), None);
    assert_eq!(path_file_name_of("/"), None);
}

#[test]
fn registering_skips_known_unmanaged_and_container_paths() {
    let mut projects = vec![at("known", "/w/known")];
    let added = register_paths(
        &mut projects,
        &vec![
            probe("/w/known/", true, false),
            probe("/w/plain", false, false),
            probe("/w/holder", true, true),
            probe("/w/fresh", true, false),
        ],
    );
    assert!(added);
    assert_eq!(projects, vec![at("known", "/w/known"), at("fresh", "/w/fresh")]);
    assert!(!register(&mut projects, &probe("/w/fresh", true, false)));
    assert_eq!(projects.len(), 2);
}

#[test]
fn register_all_offers_nested_projects_in_place_of_their_root() {
    let mut projects = Vec::new();
    let roots = vec![
        RootProbe { root: probe("/w/solo", true, false), nested: Vec::new() },
        RootProbe {
            root: probe("/w/group", true, true),
            nested: vec![probe("/w/group/one", true, false), probe("/w/group/two", true, false)],
        },
    ];
    assert!(register_all(&mut projects, &roots));
    assert_eq!(
        projects,
        vec![at("solo", "/w/solo"), at("one", "/w/group/one"), at("two", "/w/group/two")]
    );
}
