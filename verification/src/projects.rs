//! The registry of known workspaces ("projects") and how a name picks one.
use vstd::prelude::*;

use vstd::relations::*;

use crate::order::{
    chars_le, lemma_chars_le_antisymmetric, lemma_chars_le_reflexive, lemma_chars_le_total,
    lemma_chars_le_transitive, lemma_segs_le_antisymmetric, lemma_segs_le_reflexive,
    lemma_segs_le_total, lemma_segs_le_transitive, segs_le, segs_le_exec, str_le,
};
use crate::text::{
    contains, copy_string, has_infix, has_prefix, push_str, starts_with, split_seq, split_str, str_eq, to_lowercase, trim,
    trim_seq, unicode_lower, views,
};
use crate::types::Worktree;

verus! {

/// A registered workspace: its directory name and its path.
#[derive(Debug, Clone, PartialEq, Eq)]
pub struct Project {
    pub name: String,
    pub path: String,
}

impl Project {
    /// A copy of this project.
    pub fn duplicate(&self) -> (r: Project)
        ensures
            r == *self,
    {
        Project { name: self.name.clone(), path: self.path.clone() }
    }
}

/// How a project name is compared with a query: exactly, ignoring case, or as a
/// case-insensitive substring.
pub open spec fn name_matches(mode: u8, p: Project, query: Seq<char>) -> bool {
    if mode == 0 {
        p.name@ == query
    } else if mode == 1 {
        unicode_lower(p.name@) == unicode_lower(query)
    } else {
        has_infix(unicode_lower(p.name@), unicode_lower(query))
    }
}

/// The projects a query picks: the exact matches if there are any, else the
/// case-insensitive ones, else those whose lower-cased name contains the lower-cased
/// query. An exact name is never shadowed by a longer one.
pub open spec fn matching_projects(ps: Seq<Project>, query: Seq<char>) -> Seq<Project> {
    let exact = ps.filter(|p: Project| name_matches(0, p, query));
    let folded = ps.filter(|p: Project| name_matches(1, p, query));
    let sub = ps.filter(|p: Project| name_matches(2, p, query));
    if exact.len() > 0 {
        exact
    } else if folded.len() > 0 {
        folded
    } else {
        sub
    }
}

/// The projects whose names match `query` in the given mode, in order.
fn filter_by_name(projects: &Vec<Project>, query: &str, lowered: &String, mode: u8) -> (r: Vec<
    Project,
>)
    requires
        lowered@ == unicode_lower(query@),
    ensures
        r@ == projects@.filter(|p: Project| name_matches(mode, p, query@)),
{
    let mut out: Vec<Project> = Vec::new();
    let mut i: usize = 0;
    while i < projects.len()
        invariant
            i <= projects@.len(),
            lowered@ == unicode_lower(query@),
            out@ == projects@.take(i as int).filter(|p: Project| name_matches(mode, p, query@)),
        decreases projects@.len() - i,
    {
        let p = &projects[i];
        let keep = if mode == 0 {
            str_eq(p.name.as_str(), query)
        } else if mode == 1 {
            let l = to_lowercase(p.name.as_str());
            str_eq(l.as_str(), lowered.as_str())
        } else {
            let l = to_lowercase(p.name.as_str());
            contains(l.as_str(), lowered.as_str())
        };
        if keep {
            out.push(p.duplicate());
        }
        proof {
            reveal_with_fuel(Seq::<_>::filter, 1);
            let t = projects@.take(i + 1);
            assert(t.drop_last() == projects@.take(i as int));
            assert(t.last() == projects@[i as int]);
            assert(keep == name_matches(mode, projects@[i as int], query@));
        }
        i += 1;
    }
    assert(projects@.take(projects@.len() as int) == projects@);
    out
}

/// The projects that `query` picks (see `matching_projects`).
pub fn match_projects(projects: &Vec<Project>, query: &str) -> (r: Vec<Project>)
    ensures
        r@ == matching_projects(projects@, query@),
{
    let lowered = to_lowercase(query);
    let exact = filter_by_name(projects, query, &lowered, 0);
    if exact.len() > 0 {
        return exact;
    }
    let folded = filter_by_name(projects, query, &lowered, 1);
    if folded.len() > 0 {
        return folded;
    }
    filter_by_name(projects, query, &lowered, 2)
}

/// The line that lists one project.
pub open spec fn project_line(p: Project) -> Seq<char> {
    "  "@ + p.name@ + "  ("@ + p.path@ + ")"@
}

/// The lines of `ps`, joined by line feeds.
pub open spec fn project_list(ps: Seq<Project>) -> Seq<char>
    decreases ps.len(),
{
    if ps.len() == 0 {
        Seq::empty()
    } else if ps.len() == 1 {
        project_line(ps[0])
    } else {
        project_list(ps.drop_last()) + "\n"@ + project_line(ps.last())
    }
}

/// One line per project, `  name  (path)`, joined by line feeds.
pub fn format_project_list(projects: &Vec<Project>) -> (r: String)
    ensures
        r@ == project_list(projects@),
{
    let mut out = String::new();
    let mut i: usize = 0;
    while i < projects.len()
        invariant
            i <= projects@.len(),
            out@ == project_list(projects@.take(i as int)),
        decreases projects@.len() - i,
    {
        if i > 0 {
            push_str(&mut out, "\n");
        }
        push_str(&mut out, "  ");
        push_str(&mut out, projects[i].name.as_str());
        push_str(&mut out, "  (");
        push_str(&mut out, projects[i].path.as_str());
        push_str(&mut out, ")");
        proof {
            let t = projects@.take(i + 1);
            assert(t.drop_last() == projects@.take(i as int));
            assert(t.last() == projects@[i as int]);
            if i == 0 {
                assert(t.len() == 1);
                assert(t[0] == projects@[0]);
                assert(out@ == project_line(projects@[0]));
            }
        }
        i += 1;
    }
    assert(projects@.take(projects@.len() as int) == projects@);
    out
}

/// The answer to a project lookup.
pub open spec fn find_project_result(projects: Seq<Project>, name: Seq<char>) -> Result<
    Project,
    Seq<char>,
> {
    let query = trim_seq(name);
    let matches = matching_projects(projects, query);
    if projects.len() == 0 {
        Err("No projects registered yet. Run `wt clone <repo>` to create one."@)
    } else if matches.len() == 0 {
        Err("No project named '"@ + query + "'.\n\nAvailable projects:\n"@ + project_list(projects))
    } else if matches.len() == 1 {
        Ok(matches[0])
    } else {
        Err("'"@ + query + "' matches several projects:\n"@ + project_list(matches))
    }
}

/// Looks a project up by name among the registered `projects` (sorted as listed).
pub fn find_project(name: &str, projects: &Vec<Project>) -> (r: Result<Project, String>)
    ensures
        match (r, find_project_result(projects@, name@)) {
            (Ok(p), Ok(q)) => p == q,
            (Err(e), Err(m)) => e@ == m,
            _ => false,
        },
{
    let query = trim(name);
    if projects.len() == 0 {
        let mut m = String::new();
        push_str(&mut m, "No projects registered yet. Run `wt clone <repo>` to create one.");
        return Err(m);
    }
    let matches = match_projects(projects, query.as_str());
    if matches.len() == 0 {
        let mut m = String::new();
        push_str(&mut m, "No project named '");
        push_str(&mut m, query.as_str());
        push_str(&mut m, "'.\n\nAvailable projects:\n");
        let list = format_project_list(projects);
        push_str(&mut m, list.as_str());
        Err(m)
    } else if matches.len() == 1 {
        Ok(matches[0].duplicate())
    } else {
        let mut m = String::new();
        push_str(&mut m, "'");
        push_str(&mut m, query.as_str());
        push_str(&mut m, "' matches several projects:\n");
        let list = format_project_list(&matches);
        push_str(&mut m, list.as_str());
        Err(m)
    }
}

/// The worktree a project opens on: its default-branch worktree, else its first one.
pub open spec fn opening_worktree(ws: Seq<Worktree>) -> Option<Worktree> {
    if exists|i: int| 0 <= i < ws.len() && ws[i].is_main {
        let i = choose|i: int|
            0 <= i < ws.len() && ws[i].is_main && forall|j: int| 0 <= j < i ==> !ws[j].is_main;
        Some(ws[i])
    } else if ws.len() > 0 {
        Some(ws[0])
    } else {
        None
    }
}

/// The path a project opens on, picked among its `worktrees`; an error names the
/// project when it has none.
pub fn default_worktree_path(project: &Project, worktrees: &Vec<Worktree>) -> (r: Result<
    String,
    String,
>)
    ensures
        match (r, opening_worktree(worktrees@)) {
            (Ok(p), Some(w)) => p@ == w.path@,
            (Err(e), None) => e@ == "Project '"@ + project.name@ + "' has no worktree to open ("@
                + project.path@ + ")."@,
            _ => false,
        },
{
    let mut i: usize = 0;
    while i < worktrees.len()
        invariant
            i <= worktrees@.len(),
            forall|j: int| 0 <= j < i ==> !worktrees@[j].is_main,
        decreases worktrees@.len() - i,
    {
        if worktrees[i].is_main {
            let ghost ws = worktrees@;
            proof {
                let k = choose|k: int|
                    0 <= k < ws.len() && ws[k].is_main && forall|j: int|
                        0 <= j < k ==> !ws[j].is_main;
                assert(0 <= k < ws.len() && ws[k].is_main && forall|j: int|
                    0 <= j < k ==> !ws[j].is_main);
                if k < i {
                } else if k > i {
                    assert(!ws[i as int].is_main);
                }
                assert(k == i);
            }
            return Ok(copy_string(&worktrees[i].path));
        }
        i += 1;
    }
    if worktrees.len() > 0 {
        Ok(copy_string(&worktrees[0].path))
    } else {
        let mut m = String::new();
        push_str(&mut m, "Project '");
        push_str(&mut m, project.name.as_str());
        push_str(&mut m, "' has no worktree to open (");
        push_str(&mut m, project.path.as_str());
        push_str(&mut m, ").");
        Err(m)
    }
}

/// The named parts of a path: the pieces between slashes, without empty and `.` ones
/// (as `Path::components` reads a path, but for its root).
pub open spec fn path_segments(p: Seq<char>) -> Seq<Seq<char>> {
    split_seq(p, seq!['/']).filter(|s: Seq<char>| s.len() > 0 && s != seq!['.'])
}

/// The key by which projects are listed: the name, then the parts of the path.
pub open spec fn project_key(p: Project) -> (Seq<char>, Seq<Seq<char>>) {
    (p.name@, path_segments(p.path@))
}

/// The keys of a sequence of projects.
pub open spec fn project_keys(ps: Seq<Project>) -> Seq<(Seq<char>, Seq<Seq<char>>)> {
    ps.map_values(|p: Project| project_key(p))
}

/// The listing order: by name, and by path among equal names.
pub open spec fn key_le(a: (Seq<char>, Seq<Seq<char>>), b: (Seq<char>, Seq<Seq<char>>)) -> bool {
    (chars_le(a.0, b.0) && a.0 != b.0) || (a.0 == b.0 && segs_le(a.1, b.1))
}

/// Keys listed in order.
pub open spec fn keys_sorted(s: Seq<(Seq<char>, Seq<Seq<char>>)>) -> bool {
    forall|i: int, j: int| 0 <= i < j < s.len() ==> #[trigger] key_le(s[i], s[j])
}

/// The listing order is transitive.
pub proof fn lemma_key_le_transitive(
    a: (Seq<char>, Seq<Seq<char>>),
    b: (Seq<char>, Seq<Seq<char>>),
    c: (Seq<char>, Seq<Seq<char>>),
)
    requires
        key_le(a, b),
        key_le(b, c),
    ensures
        key_le(a, c),
{
    if a.0 == b.0 && b.0 == c.0 {
        lemma_segs_le_transitive(a.1, b.1, c.1);
    } else if a.0 == b.0 || b.0 == c.0 {
    } else {
        lemma_chars_le_transitive(a.0, b.0, c.0);
        if a.0 == c.0 {
            lemma_chars_le_antisymmetric(a.0, b.0);
        }
    }
}

/// Any two keys are ordered one way or the other.
pub proof fn lemma_key_le_total(a: (Seq<char>, Seq<Seq<char>>), b: (Seq<char>, Seq<Seq<char>>))
    ensures
        key_le(a, b) || key_le(b, a),
{
    if a.0 == b.0 {
        lemma_segs_le_total(a.1, b.1);
    } else {
        lemma_chars_le_total(a.0, b.0);
    }
}

/// The listing order is a total order on keys.
pub proof fn lemma_key_le_total_ordering()
    ensures
        total_ordering(
            |a: (Seq<char>, Seq<Seq<char>>), b: (Seq<char>, Seq<Seq<char>>)| key_le(a, b),
        ),
{
    let r = |a: (Seq<char>, Seq<Seq<char>>), b: (Seq<char>, Seq<Seq<char>>)| key_le(a, b);
    assert forall|x: (Seq<char>, Seq<Seq<char>>)| #[trigger] r(x, x) by {
        lemma_segs_le_reflexive(x.1);
    }
    assert forall|x: (Seq<char>, Seq<Seq<char>>), y: (Seq<char>, Seq<Seq<char>>)| #[trigger] r(
        x,
        y,
    ) && #[trigger] r(y, x) implies x == y by {
        if x.0 == y.0 {
            lemma_segs_le_antisymmetric(x.1, y.1);
        } else {
            lemma_chars_le_antisymmetric(x.0, y.0);
        }
    }
    assert forall|
        x: (Seq<char>, Seq<Seq<char>>),
        y: (Seq<char>, Seq<Seq<char>>),
        z: (Seq<char>, Seq<Seq<char>>),
    | #[trigger] r(x, y) && #[trigger] r(y, z) implies r(x, z) by {
        lemma_key_le_transitive(x, y, z);
    }
    assert forall|x: (Seq<char>, Seq<Seq<char>>), y: (Seq<char>, Seq<Seq<char>>)| #[trigger] r(
        x,
        y,
    ) || #[trigger] r(y, x) by {
        lemma_key_le_total(x, y);
    }
}

/// The named parts of `path` (see `path_segments`).
pub fn path_segments_of(path: &str) -> (r: Vec<String>)
    ensures
        views(r@) == path_segments(path@),
{
    proof {
        reveal_strlit("/");
        reveal_strlit(".");
        reveal_strlit("");
        assert("/"@ =~= seq!['/']);
        assert("."@ =~= seq!['.']);
        assert(""@ =~= Seq::<char>::empty());
    }
    let parts = split_str(path, "/");
    let ghost pv = views(parts@);
    let ghost keep = |s: Seq<char>| s.len() > 0 && s != seq!['.'];
    let mut out: Vec<String> = Vec::new();
    let mut i: usize = 0;
    while i < parts.len()
        invariant
            i <= parts@.len(),
            pv == views(parts@),
            pv == split_seq(path@, seq!['/']),
            keep == (|s: Seq<char>| s.len() > 0 && s != seq!['.']),
            views(out@) == pv.take(i as int).filter(keep),
        decreases parts@.len() - i,
    {
        let piece = &parts[i];
        let keep_it = !str_eq(piece.as_str(), "") && !str_eq(piece.as_str(), ".");
        proof {
            reveal_strlit(".");
            reveal_strlit("");
            assert("."@ =~= seq!['.']);
            assert(""@ =~= Seq::<char>::empty());
            if piece@.len() == 0 {
                assert(piece@ =~= ""@);
            }
            reveal_with_fuel(Seq::<_>::filter, 1);
            let t = pv.take(i + 1);
            assert(t.drop_last() =~= pv.take(i as int));
            assert(t.last() == piece@);
            assert(keep_it == keep(piece@));
        }
        if keep_it {
            let c = copy_string(piece);
            proof {
                assert(views(out@.push(c)) =~= views(out@).push(c@));
            }
            out.push(c);
        }
        i += 1;
    }
    assert(pv.take(parts@.len() as int) =~= pv);
    out
}

/// Whether `p` comes no later than `q` in the listing order.
pub fn project_le(p: &Project, q: &Project) -> (r: bool)
    ensures
        r == key_le(project_key(*p), project_key(*q)),
{
    if !str_eq(p.name.as_str(), q.name.as_str()) {
        let r = str_le(p.name.as_str(), q.name.as_str());
        r
    } else {
        let a = path_segments_of(p.path.as_str());
        let b = path_segments_of(q.path.as_str());
        assert(views(a@) =~= a@.map_values(|s: String| s@));
        assert(views(b@) =~= b@.map_values(|s: String| s@));
        segs_le_exec(&a, &b)
    }
}

/// Puts `p` into the listing `out` after every project that comes no later than it.
fn insert_listed(out: &mut Vec<Project>, p: Project)
    requires
        keys_sorted(project_keys(old(out)@)),
    ensures
        keys_sorted(project_keys(final(out)@)),
        final(out)@.to_multiset() == old(out)@.to_multiset().insert(p),
        project_keys(final(out)@).to_multiset() == project_keys(old(out)@).to_multiset().insert(
            project_key(p),
        ),
{
    let ghost ks = project_keys(out@);
    let mut k: usize = 0;
    while k < out.len() && project_le(&out[k], &p)
        invariant
            k <= out@.len(),
            ks == project_keys(out@),
            keys_sorted(ks),
            forall|j: int| 0 <= j < k ==> #[trigger] key_le(ks[j], project_key(p)),
        decreases out@.len() - k,
    {
        k += 1;
    }
    let ghost kp = project_key(p);
    proof {
        assert forall|j: int| k <= j < ks.len() implies #[trigger] key_le(kp, ks[j]) by {
            lemma_key_le_total(ks[k as int], kp);
            if j > k {
                lemma_key_le_transitive(kp, ks[k as int], ks[j]);
            }
        }
    }
    let ghost before = out@;
    out.insert(k, p);
    proof {
        let nk = project_keys(out@);
        assert(nk =~= ks.insert(k as int, kp));
        vstd::seq_lib::to_multiset_insert(before, k as int, p);
        vstd::seq_lib::to_multiset_insert(ks, k as int, kp);
        assert forall|i: int, j: int| 0 <= i < j < nk.len() implies #[trigger] key_le(nk[i], nk[j]) by {
            if j < k {
                assert(key_le(ks[i], ks[j]));
            } else if j == k {
            } else if i < k {
                lemma_key_le_transitive(ks[i], kp, ks[j - 1]);
            } else if i == k {
            } else {
                assert(key_le(ks[i - 1], ks[j - 1]));
            }
        }
    }
}

/// The projects of `ps` that `managed` marks, in order.
pub open spec fn managed_projects(ps: Seq<Project>, managed: Seq<bool>) -> Seq<Project>
    decreases ps.len(),
{
    if ps.len() == 0 {
        Seq::empty()
    } else {
        let rest = managed_projects(ps.drop_last(), managed);
        if managed[ps.len() - 1] {
            rest.push(ps.last())
        } else {
            rest
        }
    }
}

/// The registered projects that are still managed workspaces (`managed[i]` says it of
/// `registered[i]`), listed by name and then by path.
pub fn list_projects(registered: &Vec<Project>, managed: &Vec<bool>) -> (r: Vec<Project>)
    requires
        managed@.len() == registered@.len(),
    ensures
        r@.to_multiset() == managed_projects(registered@, managed@).to_multiset(),
        project_keys(r@) == project_keys(managed_projects(registered@, managed@)).sort_by(
            |a: (Seq<char>, Seq<Seq<char>>), b: (Seq<char>, Seq<Seq<char>>)| key_le(a, b),
        ),
{
    let mut out: Vec<Project> = Vec::new();
    let mut i: usize = 0;
    while i < registered.len()
        invariant
            i <= registered@.len(),
            managed@.len() == registered@.len(),
            keys_sorted(project_keys(out@)),
            out@.to_multiset() == managed_projects(registered@.take(i as int), managed@).to_multiset(),
            project_keys(out@).to_multiset() == project_keys(
                managed_projects(registered@.take(i as int), managed@),
            ).to_multiset(),
        decreases registered@.len() - i,
    {
        let ghost prev = managed_projects(registered@.take(i as int), managed@);
        proof {
            let t = registered@.take(i + 1);
            assert(t.drop_last() =~= registered@.take(i as int));
            assert(t.last() == registered@[i as int]);
        }
        if managed[i] {
            let c = registered[i].duplicate();
            insert_listed(&mut out, c);
            proof {
                vstd::seq_lib::to_multiset_build(prev, c);
                assert(project_keys(prev.push(c)) =~= project_keys(prev).push(project_key(c)));
                vstd::seq_lib::to_multiset_build(project_keys(prev), project_key(c));
            }
        }
        i += 1;
    }
    proof {
        assert(registered@.take(registered@.len() as int) =~= registered@);
        let leq = |a: (Seq<char>, Seq<Seq<char>>), b: (Seq<char>, Seq<Seq<char>>)| key_le(a, b);
        let x = project_keys(out@);
        let y = project_keys(managed_projects(registered@, managed@));
        lemma_key_le_total_ordering();
        y.lemma_sort_by_ensures(leq);
        assert(sorted_by(x, leq));
        vstd::seq_lib::lemma_sorted_unique(x, y.sort_by(leq), leq);
    }
    out
}

/// What was found of a directory offered for registration: its canonical path,
/// whether it is a workspace this tool manages, and whether it only holds other
/// projects.
#[derive(Debug, Clone, PartialEq, Eq)]
pub struct PathProbe {
    pub path: String,
    pub managed: bool,
    pub container: bool,
}

impl PathProbe {
    /// A copy of this probe.
    pub fn duplicate(&self) -> (r: PathProbe)
        ensures
            r == *self,
    {
        PathProbe { path: self.path.clone(), managed: self.managed, container: self.container }
    }
}

/// A workspace root offered for registration, with the projects nested in it.
#[derive(Debug, Clone)]
pub struct RootProbe {
    pub root: PathProbe,
    pub nested: Vec<PathProbe>,
}

/// The name a path gives its project: its last named part, unless that is `..`.
pub open spec fn path_file_name(p: Seq<char>) -> Option<Seq<char>> {
    let segs = path_segments(p);
    if segs.len() == 0 || segs.last() == seq!['.', '.'] {
        None
    } else {
        Some(segs.last())
    }
}

/// Two paths name the same place: both rooted or both relative, with the same parts.
pub open spec fn same_path(a: Seq<char>, b: Seq<char>) -> bool {
    path_segments(a) == path_segments(b) && has_prefix(a, seq!['/']) == has_prefix(b, seq!['/'])
}

/// Whether some project of `ps` sits at `path`.
pub open spec fn path_registered(ps: Seq<Project>, path: Seq<char>) -> bool {
    exists|i: int| 0 <= i < ps.len() && same_path(#[trigger] ps[i].path@, path)
}

/// Whether a probed directory joins the registry: it is not registered yet, is a
/// managed workspace, is no mere container of projects, and has a name.
pub open spec fn admitted(ps: Seq<Project>, probe: PathProbe) -> bool {
    &&& !path_registered(ps, probe.path@)
    &&& probe.managed
    &&& !probe.container
    &&& path_file_name(probe.path@) is Some
}

/// A project as its name and path.
pub open spec fn project_view(p: Project) -> (Seq<char>, Seq<char>) {
    (p.name@, p.path@)
}

/// The names and paths of a sequence of projects.
pub open spec fn project_views(ps: Seq<Project>) -> Seq<(Seq<char>, Seq<char>)> {
    ps.map_values(|p: Project| project_view(p))
}

/// The projects that the probed directories add to the registry `ps`, in order.
pub open spec fn fresh_projects(ps: Seq<Project>, probes: Seq<PathProbe>) -> Seq<
    (Seq<char>, Seq<char>),
>
    decreases probes.len(),
{
    if probes.len() == 0 {
        Seq::empty()
    } else {
        let rest = fresh_projects(ps, probes.drop_last());
        let p = probes.last();
        if admitted(ps, p) {
            rest.push((path_file_name(p.path@)->0, p.path@))
        } else {
            rest
        }
    }
}

/// Whether two sequences of strings are equal.
fn segs_eq(a: &Vec<String>, b: &Vec<String>) -> (r: bool)
    ensures
        r == (views(a@) == views(b@)),
{
    if a.len() != b.len() {
        proof {
            assert(views(a@).len() != views(b@).len());
        }
        return false;
    }
    let mut i: usize = 0;
    while i < a.len()
        invariant
            a@.len() == b@.len(),
            i <= a@.len(),
            forall|j: int| 0 <= j < i ==> a@[j]@ == b@[j]@,
        decreases a@.len() - i,
    {
        if !str_eq(a[i].as_str(), b[i].as_str()) {
            proof {
                assert(views(a@)[i as int] != views(b@)[i as int]);
            }
            return false;
        }
        i += 1;
    }
    assert(views(a@) =~= views(b@));
    true
}

/// Whether the paths `a` and `b` name the same place (see `same_path`).
pub fn same_path_exec(a: &str, b: &str) -> (r: bool)
    ensures
        r == same_path(a@, b@),
{
    proof {
        reveal_strlit("/");
        assert("/"@ =~= seq!['/']);
    }
    let sa = path_segments_of(a);
    let sb = path_segments_of(b);
    segs_eq(&sa, &sb) && starts_with(a, "/") == starts_with(b, "/")
}

/// The name that `path` gives its project (see `path_file_name`).
pub fn path_file_name_of(path: &str) -> (r: Option<String>)
    ensures
        match (r, path_file_name(path@)) {
            (Some(n), Some(m)) => n@ == m,
            (None, None) => true,
            _ => false,
        },
{
    let segs = path_segments_of(path);
    let n = segs.len();
    if n == 0 {
        return None;
    }
    proof {
        reveal_strlit("..");
        assert(".."@ =~= seq!['.', '.']);
        assert(views(segs@).last() == segs@[n - 1]@);
    }
    if str_eq(segs[n - 1].as_str(), "..") {
        None
    } else {
        Some(copy_string(&segs[n - 1]))
    }
}

/// Whether some project of `projects` sits at `path`.
fn is_registered(projects: &Vec<Project>, path: &str) -> (r: bool)
    ensures
        r == path_registered(projects@, path@),
{
    let mut i: usize = 0;
    while i < projects.len()
        invariant
            i <= projects@.len(),
            forall|j: int| 0 <= j < i ==> !same_path(#[trigger] projects@[j].path@, path@),
        decreases projects@.len() - i,
    {
        if same_path_exec(projects[i].path.as_str(), path) {
            return true;
        }
        i += 1;
    }
    false
}

/// Adds to `projects` each probed directory that `admitted` lets in, named by its
/// last path part; says whether any was added (the registry is then saved).
pub fn register_paths(projects: &mut Vec<Project>, probes: &Vec<PathProbe>) -> (added: bool)
    ensures
        project_views(final(projects)@) == project_views(old(projects)@) + fresh_projects(
            old(projects)@,
            probes@,
        ),
        added == (fresh_projects(old(projects)@, probes@).len() > 0),
{
    let ghost start = projects@;
    let mut fresh: Vec<Project> = Vec::new();
    let mut i: usize = 0;
    while i < probes.len()
        invariant
            i <= probes@.len(),
            project_views(fresh@) == fresh_projects(start, probes@.take(i as int)),
            projects@ == start,
        decreases probes@.len() - i,
    {
        proof {
            let t = probes@.take(i + 1);
            assert(t.drop_last() =~= probes@.take(i as int));
            assert(t.last() == probes@[i as int]);
        }
        let probe = &probes[i];
        if probe.managed && !probe.container && !is_registered(projects, probe.path.as_str()) {
            match path_file_name_of(probe.path.as_str()) {
                Some(name) => {
                    let p = Project { name, path: copy_string(&probe.path) };
                    proof {
                        assert(project_views(fresh@.push(p)) =~= project_views(fresh@).push(
                            project_view(p),
                        ));
                    }
                    fresh.push(p);
                },
                None => {},
            }
        }
        i += 1;
    }
    assert(probes@.take(probes@.len() as int) =~= probes@);
    let added = fresh.len() > 0;
    let mut j: usize = 0;
    while j < fresh.len()
        invariant
            j <= fresh@.len(),
            project_views(projects@) == project_views(start) + project_views(fresh@.take(j as int)),
        decreases fresh@.len() - j,
    {
        let p = fresh[j].duplicate();
        proof {
            assert(fresh@.take(j + 1) =~= fresh@.take(j as int).push(fresh@[j as int]));
            assert(project_views(projects@.push(p)) =~= project_views(projects@).push(
                project_view(p),
            ));
            assert(project_views(fresh@.take(j + 1)) =~= project_views(fresh@.take(j as int)).push(
                project_view(p),
            ));
        }
        projects.push(p);
        j += 1;
    }
    assert(fresh@.take(fresh@.len() as int) =~= fresh@);
    added
}

/// Offers one workspace root for registration (see `register_paths`).
pub fn register(projects: &mut Vec<Project>, root: &PathProbe) -> (added: bool)
    ensures
        project_views(final(projects)@) == project_views(old(projects)@) + fresh_projects(
            old(projects)@,
            seq![*root],
        ),
        added == (fresh_projects(old(projects)@, seq![*root]).len() > 0),
{
    let probes = vec![root.duplicate()];
    assert(probes@ =~= seq![*root]);
    register_paths(projects, &probes)
}

/// The directories that a list of roots offers: each root's nested projects, or the
/// root itself where it has none.
pub open spec fn offered_paths(roots: Seq<RootProbe>) -> Seq<PathProbe>
    decreases roots.len(),
{
    if roots.len() == 0 {
        Seq::empty()
    } else {
        let r = roots.last();
        offered_paths(roots.drop_last()) + if r.nested@.len() == 0 {
            seq![r.root]
        } else {
            r.nested@
        }
    }
}

/// Offers several workspace roots for registration, each by its nested projects where
/// it has any (see `register_paths`).
pub fn register_all(projects: &mut Vec<Project>, roots: &Vec<RootProbe>) -> (added: bool)
    ensures
        project_views(final(projects)@) == project_views(old(projects)@) + fresh_projects(
            old(projects)@,
            offered_paths(roots@),
        ),
        added == (fresh_projects(old(projects)@, offered_paths(roots@)).len() > 0),
{
    let mut offered: Vec<PathProbe> = Vec::new();
    let mut i: usize = 0;
    while i < roots.len()
        invariant
            i <= roots@.len(),
            offered@ == offered_paths(roots@.take(i as int)),
        decreases roots@.len() - i,
    {
        proof {
            let t = roots@.take(i + 1);
            assert(t.drop_last() =~= roots@.take(i as int));
            assert(t.last() == roots@[i as int]);
        }
        let r = &roots[i];
        if r.nested.len() == 0 {
            offered.push(r.root.duplicate());
            assert(offered@ =~= offered_paths(roots@.take(i + 1)));
        } else {
            let ghost before = offered@;
            let mut j: usize = 0;
            while j < r.nested.len()
                invariant
                    j <= r.nested@.len(),
                    offered@ == before + r.nested@.take(j as int),
                decreases r.nested@.len() - j,
            {
                offered.push(r.nested[j].duplicate());
                assert(r.nested@.take(j + 1) =~= r.nested@.take(j as int).push(r.nested@[j as int]));
                assert(offered@ =~= before + r.nested@.take(j + 1));
                j += 1;
            }
            assert(r.nested@.take(r.nested@.len() as int) =~= r.nested@);
        }
        i += 1;
    }
    assert(roots@.take(roots@.len() as int) =~= roots@);
    register_paths(projects, &offered)
}

/// An exact name is never shadowed: when some project is named exactly `query`, the
/// lookup picks such projects, and only them.
pub proof fn lemma_exact_name_wins(ps: Seq<Project>, query: Seq<char>, i: int)
    requires
        0 <= i < ps.len(),
        ps[i].name@ == query,
    ensures
        matching_projects(ps, query).len() > 0,
        forall|j: int|
            0 <= j < matching_projects(ps, query).len() ==> (#[trigger] matching_projects(
                ps,
                query,
            )[j]).name@ == query,
{
    let pred = |p: Project| name_matches(0, p, query);
    ps.lemma_filter_contains_rev(pred, ps[i]);
    let exact = ps.filter(pred);
    assert(exact.contains(ps[i]));
    assert forall|j: int| 0 <= j < exact.len() implies (#[trigger] exact[j]).name@ == query by {
        ps.lemma_filter_pred(pred, j);
    }
}

/// A name that differs only in case is found before any substring match: when no
/// project is named exactly `query` but some is named `query` up to case, the lookup
/// picks exactly the projects whose lower-cased name is the lower-cased query, in order.
pub proof fn lemma_case_insensitive_name_wins(ps: Seq<Project>, query: Seq<char>, i: int)
    requires
        forall|j: int| 0 <= j < ps.len() ==> (#[trigger] ps[j]).name@ != query,
        0 <= i < ps.len(),
        unicode_lower(ps[i].name@) == unicode_lower(query),
    ensures
        matching_projects(ps, query) == ps.filter(
            |p: Project| unicode_lower(p.name@) == unicode_lower(query),
        ),
{
    let exact_pred = |p: Project| name_matches(0, p, query);
    let folded_pred = |p: Project| name_matches(1, p, query);
    let exact = ps.filter(exact_pred);
    let folded = ps.filter(folded_pred);
    if exact.len() > 0 {
        ps.lemma_filter_pred(exact_pred, 0);
        assert(exact.contains(exact[0]));
        ps.lemma_filter_contains_rev(exact_pred, exact[0]);
        assert(false);
    }
    ps.lemma_filter_contains(folded_pred, i);
    assert(folded.len() > 0);
    assert(folded_pred =~= (|p: Project| unicode_lower(p.name@) == unicode_lower(query)));
}

/// Keeping the projects that satisfy `pred`, where only the one at `i` does, keeps that
/// one alone.
proof fn lemma_filter_single(ps: Seq<Project>, pred: spec_fn(Project) -> bool, i: int)
    requires
        0 <= i < ps.len(),
        pred(ps[i]),
        forall|j: int| 0 <= j < ps.len() && j != i ==> !pred(#[trigger] ps[j]),
    ensures
        ps.filter(pred) == seq![ps[i]],
    decreases ps.len(),
{
    reveal_with_fuel(Seq::<_>::filter, 1);
    let rest = ps.drop_last();
    if i == ps.len() - 1 {
        let f = rest.filter(pred);
        if f.len() > 0 {
            rest.lemma_filter_pred(pred, 0);
            assert(f.contains(f[0]));
            rest.lemma_filter_contains_rev(pred, f[0]);
            let j = choose|j: int| 0 <= j < rest.len() && rest[j] == f[0];
            assert(ps[j] == rest[j]);
            assert(false);
        }
        assert(f =~= Seq::<Project>::empty());
        assert(ps.filter(pred) =~= seq![ps[i]]);
    } else {
        assert forall|j: int| 0 <= j < rest.len() && j != i implies !pred(#[trigger] rest[j]) by {
            assert(rest[j] == ps[j]);
        }
        assert(rest[i] == ps[i]);
        lemma_filter_single(rest, pred, i);
        assert(!pred(ps.last()));
    }
}

/// A lookup whose trimmed name matches no project exactly but exactly one project up
/// to case finds that project.
pub proof fn lemma_unique_case_insensitive_found(ps: Seq<Project>, name: Seq<char>, i: int)
    requires
        forall|j: int| 0 <= j < ps.len() ==> (#[trigger] ps[j]).name@ != trim_seq(name),
        0 <= i < ps.len(),
        unicode_lower(ps[i].name@) == unicode_lower(trim_seq(name)),
        forall|j: int|
            0 <= j < ps.len() && j != i ==> unicode_lower((#[trigger] ps[j]).name@)
                != unicode_lower(trim_seq(name)),
    ensures
        find_project_result(ps, name) == Ok::<Project, Seq<char>>(ps[i]),
{
    let q = trim_seq(name);
    lemma_case_insensitive_name_wins(ps, q, i);
    let pred = |p: Project| unicode_lower(p.name@) == unicode_lower(q);
    lemma_filter_single(ps, pred, i);
    assert(matching_projects(ps, q) == seq![ps[i]]);
}

/// Every probe that the registry `ps` admits is among the projects it adds.
proof fn lemma_fresh_has(ps: Seq<Project>, probes: Seq<PathProbe>, k: int)
    requires
        0 <= k < probes.len(),
        admitted(ps, probes[k]),
    ensures
        exists|j: int|
            0 <= j < fresh_projects(ps, probes).len() && (#[trigger] fresh_projects(
                ps,
                probes,
            )[j]).1 == probes[k].path@,
    decreases probes.len(),
{
    let rest = fresh_projects(ps, probes.drop_last());
    if k == probes.len() - 1 {
        let j = rest.len() as int;
        assert(fresh_projects(ps, probes)[j].1 == probes[k].path@);
    } else {
        assert(probes.drop_last()[k] == probes[k]);
        lemma_fresh_has(ps, probes.drop_last(), k);
        let j = choose|j: int|
            0 <= j < rest.len() && (#[trigger] rest[j]).1 == probes[k].path@;
        assert(fresh_projects(ps, probes)[j] == rest[j]);
    }
}

/// A registry that covers every place `ps` covers, and every probe `ps` admits, admits
/// none of the probes.
proof fn lemma_none_fresh(ps: Seq<Project>, ps2: Seq<Project>, probes: Seq<PathProbe>)
    requires
        forall|k: int|
            0 <= k < probes.len() && admitted(ps, #[trigger] probes[k]) ==> path_registered(
                ps2,
                probes[k].path@,
            ),
        forall|p: Seq<char>| path_registered(ps, p) ==> #[trigger] path_registered(ps2, p),
    ensures
        fresh_projects(ps2, probes).len() == 0,
    decreases probes.len(),
{
    if probes.len() > 0 {
        let last = probes.last();
        assert(probes[probes.len() - 1] == last);
        assert forall|k: int|
            0 <= k < probes.drop_last().len() && admitted(ps, #[trigger] probes.drop_last()[k])
                implies path_registered(ps2, probes.drop_last()[k].path@) by {
            assert(probes.drop_last()[k] == probes[k]);
        }
        lemma_none_fresh(ps, ps2, probes.drop_last());
        if path_registered(ps, last.path@) {
            assert(path_registered(ps2, last.path@));
        }
    }
}

/// Registering the same directories twice adds nothing the second time.
pub proof fn lemma_register_idempotent(ps: Seq<Project>, ps2: Seq<Project>, probes: Seq<PathProbe>)
    requires
        project_views(ps2) == project_views(ps) + fresh_projects(ps, probes),
    ensures
        fresh_projects(ps2, probes).len() == 0,
{
    let fresh = fresh_projects(ps, probes);
    assert(ps2.len() == ps.len() + fresh.len()) by {
        assert(project_views(ps2).len() == ps2.len());
        assert(project_views(ps).len() == ps.len());
    }
    assert forall|p: Seq<char>| path_registered(ps, p) implies #[trigger] path_registered(ps2, p) by {
        let i = choose|i: int| 0 <= i < ps.len() && same_path(#[trigger] ps[i].path@, p);
        assert(project_views(ps2)[i] == project_views(ps)[i]);
        assert(ps2[i].path@ == ps[i].path@);
    }
    assert forall|k: int|
        0 <= k < probes.len() && admitted(ps, #[trigger] probes[k]) implies path_registered(
        ps2,
        probes[k].path@,
    ) by {
        lemma_fresh_has(ps, probes, k);
        let j = choose|j: int| 0 <= j < fresh.len() && (#[trigger] fresh[j]).1 == probes[k].path@;
        let at = ps.len() + j;
        assert(project_views(ps2)[at] == fresh[j]);
        assert(ps2[at].path@ == probes[k].path@);
        assert(same_path(ps2[at].path@, probes[k].path@));
    }
    lemma_none_fresh(ps, ps2, probes);
}

} // verus!
