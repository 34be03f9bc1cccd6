//! What the navigator reads out of git's output and decides about repository layouts.
//! Running git and touching the filesystem is left to the caller, which hands the text
//! and facts in.
use vstd::prelude::*;

use crate::text::{
    ascii_lower_seq, contains, copy_string, ends_with, has_infix, has_prefix, has_suffix, is_blank, lines,
    lines_seq, owned, push_str, split_seq, split_str, starts_with, str_eq, strip_prefix,
    to_lowercase, trim, trim_end_char, trim_end_char_seq, trim_end_pat_seq, trim_end_str, trim_seq,
    trim_start, trim_start_pat_seq, trim_start_seq, trim_start_str, unicode_lower, views,
};
use crate::types::{SyncStatus, Worktree};

verus! {

// ───────────────────────────── paths ─────────────────────────────

/// `Path::join` on Unix, over strings: an absolute `name` replaces `base`; otherwise one
/// separator stands between them.
pub open spec fn join_path(base: Seq<char>, name: Seq<char>) -> Seq<char> {
    if has_prefix(name, "/"@) || base.len() == 0 {
        name
    } else if has_suffix(base, "/"@) {
        base + name
    } else {
        base + "/"@ + name
    }
}

/// `base.join(name)` for string paths.
pub fn worktree_path_for_name(base_dir: &str, name: &str) -> (r: String)
    ensures
        r@ == join_path(base_dir@, name@),
{
    if starts_with(name, "/") || base_dir.is_empty() {
        return owned(name);
    }
    let mut r = owned(base_dir);
    if !ends_with(base_dir, "/") {
        push_str(&mut r, "/");
    }
    push_str(&mut r, name);
    r
}

/// The part of `s` after its last `c` (all of `s` if there is none).
pub open spec fn after_last(s: Seq<char>, c: char) -> Seq<char>
    decreases s.len(),
{
    if s.len() == 0 {
        s
    } else if s.last() == c {
        Seq::empty()
    } else {
        after_last(s.drop_last(), c).push(s.last())
    }
}

/// The directory a clone of `source` goes to, under `cwd`: the last path segment of the
/// source without a trailing `/` and `.git`.
pub open spec fn clone_dest(source: Seq<char>, cwd: Seq<char>) -> Seq<char> {
    join_path(cwd, trim_end_pat_seq(after_last(trim_end_char_seq(source, '/'), '/'), ".git"@))
}

/// The last `/`-separated segment of `s`.
fn last_segment(s: &str) -> (r: String)
    ensures
        r@ == after_last(s@, '/'),
{
    let v = crate::text::chars_of(s);
    let mut i: usize = v.len();
    assert(v@.take(v@.len() as int) == v@);
    assert(v@.skip(v@.len() as int) == Seq::<char>::empty());
    while i > 0 && v[i - 1] != '/'
        invariant
            i <= v.len(),
            v@ == s@,
            after_last(s@, '/') == after_last(v@.take(i as int), '/') + v@.skip(i as int),
        decreases i,
    {
        proof {
            let t = v@.take(i as int);
            assert(t.drop_last() == v@.take(i - 1));
            assert(v@.skip(i - 1) == seq![v@[i - 1]] + v@.skip(i as int));
            assert(after_last(t, '/') == after_last(t.drop_last(), '/').push(t.last()));
            assert(after_last(t.drop_last(), '/').push(t.last()) + v@.skip(i as int)
                == after_last(t.drop_last(), '/') + v@.skip(i - 1));
        }
        i -= 1;
    }
    proof {
        let t = v@.take(i as int);
        if i > 0 {
            assert(t.last() == v@[i - 1]);
        }
        assert(after_last(t, '/') == Seq::<char>::empty());
        assert(Seq::<char>::empty() + v@.skip(i as int) == v@.subrange(i as int, v@.len() as int));
    }
    crate::text::string_of_range(v.as_slice(), i, v.len())
}

/// The default destination of a clone: `<cwd>/<repo name>`.
/// e.g. `git@github.com:org/repo.git` or `org/repo` gives `<cwd>/repo`.
pub fn dest_from_url(source: &str, cwd: &str) -> (r: String)
    ensures
        r@ == clone_dest(source@, cwd@),
{
    let trimmed = trim_end_char(source, '/');
    let seg = last_segment(trimmed.as_str());
    let name = trim_end_str(seg.as_str(), ".git");
    worktree_path_for_name(cwd, name.as_str())
}

// ───────────────────────────── GitHub sources ─────────────────────────────

/// An `owner/repo` slug: no scheme, `@`, space or leading `/`, and exactly two
/// non-empty `/`-separated parts.
pub open spec fn is_slug(input: Seq<char>) -> bool {
    let value = trim_seq(input);
    let parts = split_seq(value, "/"@);
    value.len() > 0 && !has_infix(value, "://"@) && !has_infix(value, "@"@) && !has_infix(
        value,
        " "@,
    ) && !has_prefix(value, "/"@) && parts.len() == 2 && parts[0].len() > 0 && parts[1].len()
        > 0
}

/// Whether a clone source is a GitHub `owner/repo` slug.
pub fn is_github_owner_repo(input: &str) -> (r: bool)
    ensures
        r == is_slug(input@),
{
    let value = trim(input);
    let v = value.as_str();
    if v.is_empty() || contains(v, "://") || contains(v, "@") || contains(v, " ") || starts_with(
        v,
        "/",
    ) {
        return false;
    }
    proof {
        reveal_strlit("/");
    }
    let parts = split_str(v, "/");
    proof {
        assert(views(parts@).len() == parts@.len());
    }
    if parts.len() != 2 {
        return false;
    }
    proof {
        assert(views(parts@)[0] == parts@[0]@);
        assert(views(parts@)[1] == parts@[1]@);
    }
    !parts[0].as_str().is_empty() && !parts[1].as_str().is_empty()
}

/// The clone URL of a GitHub slug for the given protocol (`https`, else SSH).
pub open spec fn slug_url(slug: Seq<char>, protocol: Seq<char>) -> Seq<char> {
    let normalized = trim_end_pat_seq(trim_seq(slug), ".git"@);
    if protocol == "https"@ {
        "https://github.com/"@ + normalized + ".git"@
    } else {
        "git@github.com:"@ + normalized + ".git"@
    }
}

/// The clone URL of a GitHub slug.
pub fn github_url_from_slug(slug: &str, protocol: &str) -> (r: String)
    ensures
        r@ == slug_url(slug@, protocol@),
{
    let t = trim(slug);
    let normalized = trim_end_str(t.as_str(), ".git");
    let mut r = String::new();
    if str_eq(protocol, "https") {
        push_str(&mut r, "https://github.com/");
    } else {
        push_str(&mut r, "git@github.com:");
    }
    push_str(&mut r, normalized.as_str());
    push_str(&mut r, ".git");
    r
}

/// The protocol that `gh config get git_protocol` printed selects: `https` when it says
/// so, else `ssh`.
pub fn protocol_from_gh_config(output: &str) -> (r: String)
    ensures
        r@ == (if unicode_lower(trim_seq(output@)) == "https"@ {
            "https"@
        } else {
            "ssh"@
        }),
{
    let t = trim(output);
    let lowered = to_lowercase(t.as_str());
    if str_eq(lowered.as_str(), "https") {
        owned("https")
    } else {
        owned("ssh")
    }
}

// ───────────────────────────── git config ─────────────────────────────

/// The normalized origin URL of a `url = ...` line: trimmed, without `.git`, lower-cased.
pub open spec fn origin_url_value(line: Seq<char>) -> Option<Seq<char>> {
    if has_prefix(line, "url"@) {
        let rest = trim_start_seq(line.skip("url"@.len() as int));
        if has_prefix(rest, "="@) {
            let url = unicode_lower(trim_end_pat_seq(trim_seq(rest.skip("="@.len() as int)), ".git"@));
            if url.len() > 0 {
                Some(url)
            } else {
                None
            }
        } else {
            None
        }
    } else {
        None
    }
}

/// The first origin URL in config lines `i..`, whether or not the scan is inside the
/// `[remote "origin"]` section.
pub open spec fn origin_scan(ls: Seq<Seq<char>>, i: int, in_origin: bool) -> Option<Seq<char>>
    decreases ls.len() - i,
{
    if i < 0 || i >= ls.len() {
        None
    } else {
        let t = trim_seq(ls[i]);
        if has_prefix(t, "["@) {
            origin_scan(ls, i + 1, t == "[remote \"origin\"]"@)
        } else if in_origin && origin_url_value(t) is Some {
            origin_url_value(t)
        } else {
            origin_scan(ls, i + 1, in_origin)
        }
    }
}

/// The URL of `origin` in the text of a git config file, normalized for comparison.
pub fn parse_git_origin(content: &str) -> (r: Option<String>)
    ensures
        opt_view(r) == origin_scan(lines_seq(content@), 0, false),
{
    let ls = lines(content);
    let ghost l = lines_seq(content@);
    let mut in_origin = false;
    let mut i: usize = 0;
    while i < ls.len()
        invariant
            i <= ls@.len(),
            views(ls@) == l,
            l == lines_seq(content@),
            origin_scan(l, 0, false) == origin_scan(l, i as int, in_origin),
        decreases ls@.len() - i,
    {
        assert(l[i as int] == ls@[i as int]@);
        let t = trim(ls[i].as_str());
        if starts_with(t.as_str(), "[") {
            in_origin = str_eq(t.as_str(), "[remote \"origin\"]");
        } else if in_origin {
            if let Some(rest) = strip_prefix(t.as_str(), "url") {
                let r2 = trim_start(rest.as_str());
                if let Some(u) = strip_prefix(r2.as_str(), "=") {
                    let u2 = trim(u.as_str());
                    let u3 = trim_end_str(u2.as_str(), ".git");
                    let url = to_lowercase(u3.as_str());
                    if !url.as_str().is_empty() {
                        assert(rest@ == t@.skip("url"@.len() as int));
                        assert(u@ == r2@.skip("="@.len() as int));
                        assert(origin_url_value(t@) == Some(url@));
                        assert(!has_prefix(t@, "["@));
                        assert(t@ == trim_seq(l[i as int]));
                        assert(origin_scan(l, i as int, in_origin) == origin_url_value(t@));
                        return Some(url);
                    }
                }
            }
        }
        i += 1;
    }
    None
}

/// The characters of an optional string.
pub open spec fn opt_view(o: Option<String>) -> Option<Seq<char>> {
    match o {
        Some(s) => Some(s@),
        None => None,
    }
}

// ───────────────────────────── workspace detection ─────────────────────────────

/// What one entry of a directory is, as workspace detection sees it.
#[derive(Debug, Clone)]
pub enum DirProbe {
    /// Not a directory.
    NotDir,
    /// A clone (its `.git` is a directory), with the origin its config names, if any.
    Clone(Option<String>),
    /// A linked worktree (its `.git` is a file).
    Linked,
    /// A directory without `.git`.
    Plain,
}

/// How many directory entries workspace detection looks at.
pub const MAX_SCAN: usize = 50;

/// Workspace detection over entries `i..`, with the origin, clone count and linked count
/// seen so far.
pub open spec fn detect_scan(
    probes: Seq<DirProbe>,
    i: int,
    origin: Option<Seq<char>>,
    mains: nat,
    linked: nat,
) -> bool
    decreases probes.len() - i,
{
    if i < 0 || i >= probes.len() || i >= MAX_SCAN {
        (linked > 0 && mains > 0) || mains >= 2
    } else {
        match probes[i] {
            DirProbe::Clone(Some(url)) => match origin {
                None => detect_scan(probes, i + 1, Some(url@), mains + 1, linked),
                Some(o) => if o == url@ {
                    detect_scan(probes, i + 1, origin, mains + 1, linked)
                } else {
                    false
                },
            },
            DirProbe::Linked => detect_scan(probes, i + 1, origin, mains, linked + 1),
            _ => detect_scan(probes, i + 1, origin, mains, linked),
        }
    }
}

/// Whether a directory holds worktrees of one repository side by side: a clone with a
/// linked worktree, or two clones of the same origin, among its first entries.
pub fn detect_worktree_workspace(probes: &Vec<DirProbe>) -> (r: bool)
    ensures
        r == detect_scan(probes@, 0, None, 0, 0),
{
    let mut origin: Option<String> = None;
    let mut mains: usize = 0;
    let mut linked: usize = 0;
    let mut i: usize = 0;
    while i < probes.len() && i < MAX_SCAN
        invariant
            i <= probes@.len(),
            i <= MAX_SCAN,
            mains <= i,
            linked <= i,
            detect_scan(probes@, 0, None, 0, 0) == detect_scan(
                probes@,
                i as int,
                opt_view(origin),
                mains as nat,
                linked as nat,
            ),
        decreases probes@.len() - i,
    {
        match &probes[i] {
            DirProbe::Clone(Some(url)) => {
                match &origin {
                    None => {
                        origin = Some(copy_string(url));
                    },
                    Some(o) => {
                        if !str_eq(o.as_str(), url.as_str()) {
                            return false;
                        }
                    },
                }
                mains += 1;
            },
            DirProbe::Linked => {
                linked += 1;
            },
            _ => {},
        }
        i += 1;
    }
    (linked > 0 && mains > 0) || mains >= 2
}

// ───────────────────────────── directory names ─────────────────────────────

/// Directories that scans never enter.
pub open spec fn skipped_dir(name: Seq<char>) -> bool {
    name == ".git"@ || name == "node_modules"@ || name == ".next"@ || name == ".nuxt"@ || name
        == ".turbo"@ || name == ".cache"@ || name == "dist"@ || name == "build"@ || name
        == "target"@ || name == "coverage"@
}

/// Whether a scan skips the directory with this name.
pub fn should_skip_dir(name: &str) -> (r: bool)
    ensures
        r == skipped_dir(name@),
{
    str_eq(name, ".git") || str_eq(name, "node_modules") || str_eq(name, ".next") || str_eq(
        name,
        ".nuxt",
    ) || str_eq(name, ".turbo") || str_eq(name, ".cache") || str_eq(name, "dist") || str_eq(
        name,
        "build",
    ) || str_eq(name, "target") || str_eq(name, "coverage")
}

/// Whether an untracked file with this name holds secrets: its name starts with `.env`.
pub fn is_secret_file_name(name: &str) -> (r: bool)
    ensures
        r == has_prefix(name@, ".env"@),
{
    starts_with(name, ".env")
}

/// The secret files of a worktree: those of `env_files` (its files named `.env…` outside
/// skipped directories, as paths relative to it) that git does not track.
pub open spec fn unversioned_files(env_files: Seq<Seq<char>>, versioned: Seq<Seq<char>>) -> Seq<
    Seq<char>,
> {
    env_files.filter(|f: Seq<char>| !versioned.contains(f))
}

/// Whether `versioned` holds `f`.
fn holds(versioned: &Vec<String>, f: &str) -> (r: bool)
    ensures
        r == views(versioned@).contains(f@),
{
    let mut i: usize = 0;
    while i < versioned.len()
        invariant
            i <= versioned@.len(),
            forall|j: int| 0 <= j < i ==> versioned@[j]@ != f@,
        decreases versioned@.len() - i,
    {
        if str_eq(versioned[i].as_str(), f) {
            proof {
                assert(views(versioned@)[i as int] == f@);
            }
            return true;
        }
        i += 1;
    }
    proof {
        if views(versioned@).contains(f@) {
            let k = choose|k: int| 0 <= k < views(versioned@).len() && views(versioned@)[k] == f@;
            assert(versioned@[k]@ == f@);
        }
    }
    false
}

/// The secret files of a worktree (see `unversioned_files`), in the order given.
pub fn secret_files(env_files: &Vec<String>, versioned: &Vec<String>) -> (r: Vec<String>)
    ensures
        views(r@) == unversioned_files(views(env_files@), views(versioned@)),
{
    let ghost tv = views(versioned@);
    let ghost keep = |f: Seq<char>| !tv.contains(f);
    let mut out: Vec<String> = Vec::new();
    let mut i: usize = 0;
    while i < env_files.len()
        invariant
            i <= env_files@.len(),
            tv == views(versioned@),
            keep == (|f: Seq<char>| !tv.contains(f)),
            views(out@) == views(env_files@).take(i as int).filter(keep),
        decreases env_files@.len() - i,
    {
        let f = &env_files[i];
        let keep_it = !holds(versioned, f.as_str());
        proof {
            reveal_with_fuel(Seq::<_>::filter, 1);
            let t = views(env_files@).take(i + 1);
            assert(t.drop_last() =~= views(env_files@).take(i as int));
            assert(t.last() == f@);
        }
        if keep_it {
            let c = copy_string(f);
            proof {
                lemma_views_push(out@, c);
            }
            out.push(c);
        }
        i += 1;
    }
    assert(views(env_files@).take(env_files@.len() as int) =~= views(env_files@));
    out
}

/// Whether a worktree holds secret files (see `unversioned_files`).
pub fn worktree_has_secrets(env_files: &Vec<String>, versioned: &Vec<String>) -> (r: bool)
    ensures
        r == (unversioned_files(views(env_files@), views(versioned@)).len() > 0),
{
    let found = secret_files(env_files, versioned);
    assert(views(found@).len() == found@.len());
    found.len() > 0
}

// ───────────────────────────── syncing ─────────────────────────────

/// The progress message when a worktree's branch has no counterpart on `origin`.
pub open spec fn missing_remote_ref_message(branch: Seq<char>) -> Seq<char> {
    "origin/"@ + branch + " not found on remote"@
}

/// Why a sync skips a branch that `origin` lacks.
pub fn missing_remote_ref(branch: &str) -> (r: SyncStatus)
    ensures
        r matches SyncStatus::Skipped(m) && m@ == missing_remote_ref_message(branch@),
{
    let mut m = owned("origin/");
    push_str(&mut m, branch);
    push_str(&mut m, " not found on remote");
    SyncStatus::Skipped(m)
}

/// A failed fast-forward that local changes stand in the way of.
pub open spec fn blocked_by_local_changes(lower_err: Seq<char>) -> bool {
    has_infix(lower_err, "uncommitted changes"@) || has_infix(lower_err, "local changes"@)
        || has_infix(lower_err, "not possible to fast-forward"@) || has_infix(
        lower_err,
        "you have unstaged changes"@,
    )
}

/// The commit range a fast-forward reports: its first `Updating …` line without that
/// word, trimmed; empty when there is none.
pub open spec fn updated_range(stdout: Seq<char>) -> Seq<char> {
    match first_with_prefix(lines_seq(stdout), "Updating "@) {
        Some(l) => trim_seq(trim_start_pat_seq(l, "Updating "@)),
        None => Seq::empty(),
    }
}

/// What `git merge --ff-only origin/<branch>` did, from its exit status and output.
pub fn merge_status(success: bool, stdout: &str, stderr: &str) -> (r: SyncStatus)
    ensures
        match r {
            SyncStatus::UpToDate => success && has_infix(stdout@, "Already up to date"@),
            SyncStatus::Updated(range) => success && !has_infix(stdout@, "Already up to date"@)
                && range@ == updated_range(stdout@),
            SyncStatus::Skipped(reason) => !success && blocked_by_local_changes(
                unicode_lower(trim_seq(stderr@)),
            ) && reason@ == "dirty working tree"@,
            SyncStatus::Error(e) => !success && !blocked_by_local_changes(
                unicode_lower(trim_seq(stderr@)),
            ) && e@ == trim_seq(stderr@),
        },
{
    if success {
        if contains(stdout, "Already up to date") {
            return SyncStatus::UpToDate;
        }
        let ls = lines(stdout);
        let range = match find_prefixed(&ls, "Updating ") {
            Some(i) => {
                let rest = trim_start_str(ls[i].as_str(), "Updating ");
                trim(rest.as_str())
            },
            None => String::new(),
        };
        return SyncStatus::Updated(range);
    }
    let err = trim(stderr);
    let lower = to_lowercase(err.as_str());
    if contains(lower.as_str(), "uncommitted changes") || contains(lower.as_str(), "local changes")
        || contains(lower.as_str(), "not possible to fast-forward") || contains(
        lower.as_str(),
        "you have unstaged changes",
    ) {
        SyncStatus::Skipped(owned("dirty working tree"))
    } else {
        SyncStatus::Error(err)
    }
}

// ───────────────────────────── workspaces ─────────────────────────────

/// The first of `ancestors` that `marked` says holds the workspace marker.
pub open spec fn first_marked(ancestors: Seq<Seq<char>>, marked: Seq<bool>) -> Option<Seq<char>>
    decreases ancestors.len(),
{
    if ancestors.len() == 0 {
        None
    } else if marked[0] {
        Some(ancestors[0])
    } else {
        first_marked(ancestors.drop_first(), marked.drop_first())
    }
}

/// The workspace root above a directory: the first of its `ancestors` (itself first,
/// then each parent in turn) whose `marked` entry says it holds the workspace marker.
pub fn find_workspace_root(ancestors: &Vec<String>, marked: &Vec<bool>) -> (r: Option<String>)
    requires
        marked@.len() == ancestors@.len(),
    ensures
        opt_view(r) == first_marked(views(ancestors@), marked@),
{
    let mut i: usize = 0;
    assert(views(ancestors@).skip(0) =~= views(ancestors@));
    assert(marked@.skip(0) =~= marked@);
    while i < ancestors.len()
        invariant
            i <= ancestors@.len(),
            marked@.len() == ancestors@.len(),
            first_marked(views(ancestors@), marked@) == first_marked(
                views(ancestors@).skip(i as int),
                marked@.skip(i as int),
            ),
        decreases ancestors@.len() - i,
    {
        proof {
            let a = views(ancestors@).skip(i as int);
            let m = marked@.skip(i as int);
            assert(a.drop_first() =~= views(ancestors@).skip(i + 1));
            assert(m.drop_first() =~= marked@.skip(i + 1));
            assert(a[0] == ancestors@[i as int]@);
            assert(m[0] == marked@[i as int]);
        }
        if marked[i] {
            return Some(copy_string(&ancestors[i]));
        }
        i += 1;
    }
    proof {
        assert(views(ancestors@).skip(i as int).len() == 0);
    }
    None
}

// ───────────────────────────── remotes ─────────────────────────────

/// The trimmed, non-empty lines of `ls`.
pub open spec fn trimmed_nonempty(ls: Seq<Seq<char>>) -> Seq<Seq<char>>
    decreases ls.len(),
{
    if ls.len() == 0 {
        Seq::empty()
    } else {
        let rest = trimmed_nonempty(ls.drop_last());
        let t = trim_seq(ls.last());
        if t.len() > 0 {
            rest.push(t)
        } else {
            rest
        }
    }
}

/// `views` of a pushed sequence.
pub proof fn lemma_views_push(v: Seq<String>, x: String)
    ensures
        views(v.push(x)) == views(v).push(x@),
{
    assert(views(v.push(x)) =~= views(v).push(x@));
}

/// The remote names that `git remote` printed.
pub fn parse_remotes(stdout: &str) -> (r: Vec<String>)
    ensures
        views(r@) == trimmed_nonempty(lines_seq(stdout@)),
{
    let ls = lines(stdout);
    let ghost l = lines_seq(stdout@);
    let mut out: Vec<String> = Vec::new();
    let mut i: usize = 0;
    while i < ls.len()
        invariant
            i <= ls@.len(),
            views(ls@) == l,
            views(out@) == trimmed_nonempty(l.take(i as int)),
        decreases ls@.len() - i,
    {
        let t = trim(ls[i].as_str());
        proof {
            let tk = l.take(i + 1);
            assert(tk.drop_last() == l.take(i as int));
            assert(tk.last() == ls@[i as int]@);
            lemma_views_push(out@, t);
        }
        if !t.as_str().is_empty() {
            out.push(t);
        }
        i += 1;
    }
    assert(l.take(l.len() as int) == l);
    out
}

/// The branches of `remote` among the lines of `git branch -r`, without the
/// `<remote>/` prefix: trimmed lines that start with it and do not mention `HEAD`.
pub open spec fn remote_branch_scan(ls: Seq<Seq<char>>, prefix: Seq<char>) -> Seq<Seq<char>>
    decreases ls.len(),
{
    if ls.len() == 0 {
        Seq::empty()
    } else {
        let rest = remote_branch_scan(ls.drop_last(), prefix);
        let t = trim_seq(ls.last());
        if has_prefix(t, prefix) && !has_infix(t, "HEAD"@) {
            rest.push(t.skip(prefix.len() as int))
        } else {
            rest
        }
    }
}

/// The branch names of `remote` that `git branch -r --list <remote>/*` printed.
pub fn parse_remote_branches(stdout: &str, remote: &str) -> (r: Vec<String>)
    ensures
        views(r@) == remote_branch_scan(lines_seq(stdout@), remote@ + "/"@),
{
    let mut prefix = owned(remote);
    push_str(&mut prefix, "/");
    let ls = lines(stdout);
    let ghost l = lines_seq(stdout@);
    let mut out: Vec<String> = Vec::new();
    let mut i: usize = 0;
    while i < ls.len()
        invariant
            i <= ls@.len(),
            views(ls@) == l,
            prefix@ == remote@ + "/"@,
            views(out@) == remote_branch_scan(l.take(i as int), prefix@),
        decreases ls@.len() - i,
    {
        let t = trim(ls[i].as_str());
        proof {
            let tk = l.take(i + 1);
            assert(tk.drop_last() == l.take(i as int));
            assert(tk.last() == ls@[i as int]@);
        }
        if !contains(t.as_str(), "HEAD") {
            if let Some(name) = strip_prefix(t.as_str(), prefix.as_str()) {
                proof {
                    lemma_views_push(out@, name);
                }
                out.push(name);
            }
        }
        i += 1;
    }
    assert(l.take(l.len() as int) == l);
    out
}

/// What a failed `git fetch <remote>` reports: its trimmed error output, or a sentence
/// naming the remote when that is empty.
pub fn fetch_error_message(remote: &str, stderr: &str) -> (r: String)
    ensures
        r@ == (if trim_seq(stderr@).len() == 0 {
            "git fetch "@ + remote@ + " failed"@
        } else {
            trim_seq(stderr@)
        }),
{
    let t = trim(stderr);
    if t.as_str().is_empty() {
        let mut m = owned("git fetch ");
        push_str(&mut m, remote);
        push_str(&mut m, " failed");
        m
    } else {
        t
    }
}

/// The branch a remote-checkout input names: trimmed, with a leading `<remote>/`
/// dropped; an empty name is refused.
pub open spec fn checkout_branch_name(input: Seq<char>, remote: Seq<char>) -> Result<
    Seq<char>,
    Seq<char>,
> {
    let t = trim_seq(input);
    let prefix = remote + "/"@;
    let name = if has_prefix(t, prefix) {
        t.skip(prefix.len() as int)
    } else {
        t
    };
    if name.len() == 0 {
        Err("Branch name can't be empty."@)
    } else {
        Ok(name)
    }
}

/// The local branch name for a remote-checkout input.
pub fn normalize_checkout_remote_branch_input(input: &str, remote: &str) -> (r: Result<
    String,
    String,
>)
    ensures
        match (r, checkout_branch_name(input@, remote@)) {
            (Ok(a), Ok(b)) => a@ == b,
            (Err(a), Err(b)) => a@ == b,
            _ => false,
        },
{
    let t = trim(input);
    let mut prefix = owned(remote);
    push_str(&mut prefix, "/");
    let name = match strip_prefix(t.as_str(), prefix.as_str()) {
        Some(n) => n,
        None => t,
    };
    if name.as_str().is_empty() {
        Err(owned("Branch name can't be empty."))
    } else {
        Ok(name)
    }
}

/// The default branch that `git symbolic-ref refs/remotes/origin/HEAD` printed.
pub open spec fn default_branch_of(raw: Seq<char>) -> Option<Seq<char>> {
    let t = trim_seq(raw);
    let p = "refs/remotes/origin/"@;
    if has_prefix(t, p) && t.len() > p.len() {
        Some(t.skip(p.len() as int))
    } else {
        None
    }
}

/// The default branch named by the output of `git symbolic-ref refs/remotes/origin/HEAD`.
pub fn default_branch_from_ref(raw: &str) -> (r: Option<String>)
    ensures
        opt_view(r) == default_branch_of(raw@),
{
    let t = trim(raw);
    match strip_prefix(t.as_str(), "refs/remotes/origin/") {
        Some(b) => if b.as_str().is_empty() {
            None
        } else {
            Some(b)
        },
        None => None,
    }
}

/// Why an existing local branch cannot be checked out for `<remote>/<branch>`: it
/// tracks another upstream (or none).
pub open spec fn tracking_mismatch(branch: Seq<char>, remote: Seq<char>, upstream: Option<Seq<char>>) -> Option<
    Seq<char>,
> {
    let expected = remote + "/"@ + branch;
    match upstream {
        Some(u) if u == expected => None,
        _ => Some(
            "Local branch '"@ + branch + "' tracks '"@ + match upstream {
                Some(u) => u,
                None => "(none)"@,
            } + "', not '"@ + expected + "'"@,
        ),
    }
}

/// Checks that the local `branch` tracks `<remote>/<branch>` (see `tracking_mismatch`).
pub fn check_tracking(branch: &str, remote: &str, upstream: &Option<String>) -> (r: Option<String>)
    ensures
        opt_view(r) == tracking_mismatch(branch@, remote@, opt_view(*upstream)),
{
    let mut expected = owned(remote);
    push_str(&mut expected, "/");
    push_str(&mut expected, branch);
    if let Some(u) = upstream {
        if str_eq(u.as_str(), expected.as_str()) {
            return None;
        }
    }
    let mut m = owned("Local branch '");
    push_str(&mut m, branch);
    push_str(&mut m, "' tracks '");
    match upstream {
        Some(u) => push_str(&mut m, u.as_str()),
        None => push_str(&mut m, "(none)"),
    }
    push_str(&mut m, "', not '");
    push_str(&mut m, expected.as_str());
    push_str(&mut m, "'");
    Some(m)
}

// ───────────────────────────── worktree lists ─────────────────────────────

/// A worktree as the porcelain listing describes it.
pub struct WorktreeModel {
    pub path: Seq<char>,
    pub branch: Seq<char>,
    pub is_main: bool,
}

/// What a worktree record says, without the facts that need the filesystem.
pub open spec fn model_of(w: Worktree) -> WorktreeModel {
    WorktreeModel { path: w.path@, branch: w.branch@, is_main: w.is_main }
}

/// The models of a list of worktrees.
pub open spec fn models(ws: Seq<Worktree>) -> Seq<WorktreeModel> {
    ws.map_values(|w: Worktree| model_of(w))
}

/// The first line of `ls` that starts with `p`.
pub open spec fn first_with_prefix(ls: Seq<Seq<char>>, p: Seq<char>) -> Option<Seq<char>>
    decreases ls.len(),
{
    if ls.len() == 0 {
        None
    } else if has_prefix(ls[0], p) {
        Some(ls[0])
    } else {
        first_with_prefix(ls.drop_first(), p)
    }
}

/// The branch of a porcelain record: its `branch` line without `refs/heads/`, else its
/// `HEAD` line's commit, else `HEAD`.
pub open spec fn record_branch(ls: Seq<Seq<char>>) -> Seq<char> {
    match first_with_prefix(ls, "branch "@) {
        Some(l) => trim_start_pat_seq(trim_start_pat_seq(l, "branch "@), "refs/heads/"@),
        None => match first_with_prefix(ls, "HEAD "@) {
            Some(l) => trim_start_pat_seq(l, "HEAD "@),
            None => "HEAD"@,
        },
    }
}

/// The path and branch of one porcelain record; bare repositories and records without a
/// `worktree` line give none.
pub open spec fn record_info(block: Seq<char>) -> Option<(Seq<char>, Seq<char>)> {
    let ls = lines_seq(block);
    if ls.len() == 0 {
        None
    } else {
        match first_with_prefix(ls, "worktree "@) {
            None => None,
            Some(pl) => if ls.contains("bare"@) {
                None
            } else {
                Some((trim_start_pat_seq(pl, "worktree "@), record_branch(ls)))
            },
        }
    }
}

/// The worktrees of porcelain records, in order. A worktree is the default one when its
/// branch is the default branch; without a known default branch, the first is.
pub open spec fn record_worktrees(blocks: Seq<Seq<char>>, db: Option<Seq<char>>) -> Seq<
    WorktreeModel,
>
    decreases blocks.len(),
{
    if blocks.len() == 0 {
        Seq::empty()
    } else {
        let prev = record_worktrees(blocks.drop_last(), db);
        match record_info(blocks.last()) {
            None => prev,
            Some((p, b)) => prev.push(
                WorktreeModel {
                    path: p,
                    branch: b,
                    is_main: match db {
                        Some(d) => b == d,
                        None => prev.len() == 0,
                    },
                },
            ),
        }
    }
}

/// The default worktrees first, each group in its listed order.
pub open spec fn main_first(ws: Seq<WorktreeModel>) -> Seq<WorktreeModel> {
    ws.filter(|w: WorktreeModel| w.is_main) + ws.filter(|w: WorktreeModel| !w.is_main)
}

/// The worktrees that `git worktree list --porcelain` printed.
pub open spec fn porcelain_worktrees(raw: Seq<char>, db: Option<Seq<char>>) -> Seq<WorktreeModel> {
    main_first(record_worktrees(split_seq(trim_seq(raw), "\n\n"@), db))
}

/// In a listing with the default worktrees first, no other worktree comes before a
/// default one.
pub proof fn lemma_main_first_orders(ws: Seq<WorktreeModel>, i: int, j: int)
    requires
        0 <= i < j < main_first(ws).len(),
        main_first(ws)[j].is_main,
    ensures
        main_first(ws)[i].is_main,
{
    let a = ws.filter(|w: WorktreeModel| w.is_main);
    let b = ws.filter(|w: WorktreeModel| !w.is_main);
    ws.lemma_filter_len(|w: WorktreeModel| w.is_main);
    if j >= a.len() {
        ws.lemma_filter_pred(|w: WorktreeModel| !w.is_main, j - a.len());
        assert(main_first(ws)[j] == b[j - a.len()]);
    }
    assert(j < a.len());
    ws.lemma_filter_pred(|w: WorktreeModel| w.is_main, i);
    assert(main_first(ws)[i] == a[i]);
}

/// Whether each worktree of `ws` is marked default exactly when its branch is `d`.
pub open spec fn marks_branch(ws: Seq<WorktreeModel>, d: Seq<char>) -> bool {
    forall|i: int| 0 <= i < ws.len() ==> (#[trigger] ws[i]).is_main == (ws[i].branch == d)
}

/// Putting the default worktrees first keeps each worktree's mark.
proof fn lemma_main_first_marks(ws: Seq<WorktreeModel>, d: Seq<char>)
    requires
        marks_branch(ws, d),
    ensures
        marks_branch(main_first(ws), d),
{
    let f = |w: WorktreeModel| w.is_main;
    let g = |w: WorktreeModel| !w.is_main;
    let a = ws.filter(f);
    let b = ws.filter(g);
    let m = main_first(ws);
    assert forall|i: int| 0 <= i < m.len() implies (#[trigger] m[i]).is_main == (m[i].branch
        == d) by {
        if i < a.len() {
            assert(m[i] == a[i]);
            assert(a.contains(a[i]));
            ws.lemma_filter_contains_rev(f, a[i]);
        } else {
            assert(m[i] == b[i - a.len()]);
            assert(b.contains(b[i - a.len()]));
            ws.lemma_filter_contains_rev(g, b[i - a.len()]);
        }
    }
}

/// With a known default branch, each record's worktree is marked default exactly when
/// its branch is that branch.
proof fn lemma_record_worktrees_marks(blocks: Seq<Seq<char>>, d: Seq<char>)
    ensures
        marks_branch(record_worktrees(blocks, Some(d)), d),
    decreases blocks.len(),
{
    if blocks.len() > 0 {
        lemma_record_worktrees_marks(blocks.drop_last(), d);
    }
}

/// With a known default branch `d`, a worktree listed by `git worktree list --porcelain`
/// is marked default exactly when its branch is `d`: one whose branch merely starts with
/// `d` is not.
pub proof fn lemma_porcelain_marks_default_branch(raw: Seq<char>, d: Seq<char>)
    ensures
        forall|i: int|
            0 <= i < porcelain_worktrees(raw, Some(d)).len() ==> (#[trigger] porcelain_worktrees(
                raw,
                Some(d),
            )[i]).is_main == (porcelain_worktrees(raw, Some(d))[i].branch == d),
{
    let blocks = split_seq(trim_seq(raw), "\n\n"@);
    lemma_record_worktrees_marks(blocks, d);
    lemma_main_first_marks(record_worktrees(blocks, Some(d)), d);
}

/// `models` of a pushed sequence.
proof fn lemma_models_push(ws: Seq<Worktree>, w: Worktree)
    ensures
        models(ws.push(w)) == models(ws).push(model_of(w)),
{
    assert(models(ws.push(w)) =~= models(ws).push(model_of(w)));
}

/// The index of the first line of `ls` that starts with `p`.
fn find_prefixed(ls: &Vec<String>, p: &str) -> (r: Option<usize>)
    ensures
        match r {
            Some(i) => i < ls@.len() && first_with_prefix(views(ls@), p@) == Some(ls@[i as int]@),
            None => first_with_prefix(views(ls@), p@) is None,
        },
{
    let ghost l = views(ls@);
    let mut i: usize = 0;
    assert(l.skip(0) == l);
    while i < ls.len()
        invariant
            i <= ls@.len(),
            l == views(ls@),
            first_with_prefix(l, p@) == first_with_prefix(l.skip(i as int), p@),
        decreases ls@.len() - i,
    {
        assert(l.skip(i as int)[0] == ls@[i as int]@);
        assert(l.skip(i as int).drop_first() == l.skip(i + 1));
        if starts_with(ls[i].as_str(), p) {
            return Some(i);
        }
        i += 1;
    }
    None
}

/// Whether one of the lines is exactly `bare`.
fn has_bare_line(ls: &Vec<String>) -> (r: bool)
    ensures
        r == views(ls@).contains("bare"@),
{
    let ghost l = views(ls@);
    let mut i: usize = 0;
    while i < ls.len()
        invariant
            i <= ls@.len(),
            l == views(ls@),
            forall|j: int| 0 <= j < i ==> l[j] != "bare"@,
        decreases ls@.len() - i,
    {
        if str_eq(ls[i].as_str(), "bare") {
            assert(l[i as int] == "bare"@);
            return true;
        }
        i += 1;
    }
    false
}

/// The path and branch of one porcelain record.
fn record_worktree(block: &str) -> (r: Option<(String, String)>)
    ensures
        match (r, record_info(block@)) {
            (Some((a, b)), Some((x, y))) => a@ == x && b@ == y,
            (None, None) => true,
            _ => false,
        },
{
    let ls = lines(block);
    if ls.len() == 0 {
        return None;
    }
    let pl = match find_prefixed(&ls, "worktree ") {
        Some(k) => k,
        None => {
            return None;
        },
    };
    if has_bare_line(&ls) {
        return None;
    }
    let path = trim_start_str(ls[pl].as_str(), "worktree ");
    let branch = match find_prefixed(&ls, "branch ") {
        Some(k) => {
            let b = trim_start_str(ls[k].as_str(), "branch ");
            trim_start_str(b.as_str(), "refs/heads/")
        },
        None => match find_prefixed(&ls, "HEAD ") {
            Some(k) => trim_start_str(ls[k].as_str(), "HEAD "),
            None => owned("HEAD"),
        },
    };
    Some((path, branch))
}

/// The worktrees of `ws` whose default flag is `main`, in order.
fn select_main(ws: &Vec<Worktree>, main: bool) -> (r: Vec<Worktree>)
    requires
        forall|i: int| 0 <= i < ws@.len() ==> !(#[trigger] ws@[i]).is_current && !ws@[i].has_secrets,
    ensures
        models(r@) == models(ws@).filter(|w: WorktreeModel| w.is_main == main),
        forall|i: int| 0 <= i < r@.len() ==> !(#[trigger] r@[i]).is_current && !r@[i].has_secrets,
{
    let mut out: Vec<Worktree> = Vec::new();
    let mut i: usize = 0;
    while i < ws.len()
        invariant
            i <= ws@.len(),
            models(out@) == models(ws@).take(i as int).filter(|w: WorktreeModel| w.is_main == main),
            forall|k: int|
                0 <= k < ws@.len() ==> !(#[trigger] ws@[k]).is_current && !ws@[k].has_secrets,
            forall|k: int|
                0 <= k < out@.len() ==> !(#[trigger] out@[k]).is_current && !out@[k].has_secrets,
        decreases ws@.len() - i,
    {
        let keep = ws[i].is_main == main;
        proof {
            reveal_with_fuel(Seq::<_>::filter, 1);
            let t = models(ws@).take(i + 1);
            assert(t.drop_last() == models(ws@).take(i as int));
            assert(t.last() == model_of(ws@[i as int]));
        }
        if keep {
            let w = ws[i].duplicate();
            proof {
                lemma_models_push(out@, w);
            }
            out.push(w);
        }
        i += 1;
    }
    assert(models(ws@).take(ws@.len() as int) == models(ws@));
    out
}

/// The worktrees listed by `git worktree list --porcelain`, default ones first.
/// Whether each is the current one and holds secrets is left unset (false): those need
/// the filesystem.
pub fn parse_worktree_porcelain(raw: &str, default_branch: &Option<String>) -> (r: Vec<Worktree>)
    ensures
        models(r@) == porcelain_worktrees(raw@, opt_view(*default_branch)),
        forall|i: int| 0 <= i < r@.len() ==> !(#[trigger] r@[i]).is_current && !r@[i].has_secrets,
        match *default_branch {
            Some(d) => forall|i: int|
                0 <= i < r@.len() ==> (#[trigger] r@[i]).is_main == (r@[i].branch@ == d@),
            None => true,
        },
{
    let ghost db = opt_view(*default_branch);
    let t = trim(raw);
    proof {
        reveal_strlit("\n\n");
    }
    let blocks = split_str(t.as_str(), "\n\n");
    let ghost bl = views(blocks@);
    let mut found: Vec<Worktree> = Vec::new();
    let mut i: usize = 0;
    while i < blocks.len()
        invariant
            i <= blocks@.len(),
            bl == views(blocks@),
            db == opt_view(*default_branch),
            models(found@) == record_worktrees(bl.take(i as int), db),
            forall|k: int|
                0 <= k < found@.len() ==> !(#[trigger] found@[k]).is_current && !found@[k].has_secrets,
        decreases blocks@.len() - i,
    {
        proof {
            let tk = bl.take(i + 1);
            assert(tk.drop_last() == bl.take(i as int));
            assert(tk.last() == blocks@[i as int]@);
        }
        match record_worktree(blocks[i].as_str()) {
            Some((path, branch)) => {
                let is_main = match default_branch {
                    Some(d) => str_eq(branch.as_str(), d.as_str()),
                    None => found.len() == 0,
                };
                let w = Worktree { path, branch, is_main, is_current: false, has_secrets: false };
                proof {
                    lemma_models_push(found@, w);
                }
                found.push(w);
            },
            None => {},
        }
        i += 1;
    }
    assert(bl.take(bl.len() as int) == bl);
    let r = main_first_exec(&found);
    proof {
        if let Some(d) = default_branch {
            lemma_porcelain_marks_default_branch(raw@, d@);
            assert forall|i: int| 0 <= i < r@.len() implies (#[trigger] r@[i]).is_main == (
            r@[i].branch@ == d@) by {
                assert(models(r@)[i] == model_of(r@[i]));
            }
        }
    }
    r
}

/// The worktrees of `found`, the default ones first, each group in its order.
fn main_first_exec(found: &Vec<Worktree>) -> (r: Vec<Worktree>)
    requires
        forall|k: int|
            0 <= k < found@.len() ==> !(#[trigger] found@[k]).is_current && !found@[k].has_secrets,
    ensures
        models(r@) == main_first(models(found@)),
        forall|i: int| 0 <= i < r@.len() ==> !(#[trigger] r@[i]).is_current && !r@[i].has_secrets,
{
    let mains = select_main(found, true);
    let others = select_main(found, false);
    let mut out = mains;
    let mut k: usize = 0;
    let ghost m0 = models(out@);
    while k < others.len()
        invariant
            k <= others@.len(),
            models(out@) == m0 + models(others@).take(k as int),
            forall|x: int|
                0 <= x < out@.len() ==> !(#[trigger] out@[x]).is_current && !out@[x].has_secrets,
            forall|x: int|
                0 <= x < others@.len() ==> !(#[trigger] others@[x]).is_current
                    && !others@[x].has_secrets,
        decreases others@.len() - k,
    {
        let w = others[k].duplicate();
        proof {
            lemma_models_push(out@, w);
            assert(models(others@).take(k + 1) == models(others@).take(k as int).push(
                model_of(others@[k as int]),
            ));
        }
        out.push(w);
        k += 1;
    }
    assert(models(others@).take(others@.len() as int) == models(others@));
    proof {
        let f = models(found@);
        let is_main_f = |w: WorktreeModel| w.is_main;
        let not_main_f = |w: WorktreeModel| !w.is_main;
        assert((|w: WorktreeModel| w.is_main == true) =~= is_main_f);
        assert((|w: WorktreeModel| w.is_main == false) =~= not_main_f);
        assert(models(out@) == main_first(f));
    }
    out
}

/// The worktrees of a workspace's repositories (path and branch of each, in scan
/// order). A repository is the default one when its branch is the default branch;
/// without a known default branch, the first is.
pub open spec fn repo_worktrees(repos: Seq<(Seq<char>, Seq<char>)>, db: Option<Seq<char>>) -> Seq<
    WorktreeModel,
>
    decreases repos.len(),
{
    if repos.len() == 0 {
        Seq::empty()
    } else {
        let prev = repo_worktrees(repos.drop_last(), db);
        let (p, b) = repos.last();
        prev.push(
            WorktreeModel {
                path: p,
                branch: b,
                is_main: match db {
                    Some(d) => b == d,
                    None => prev.len() == 0,
                },
            },
        )
    }
}

/// The path and branch of each scanned repository, as character sequences.
pub open spec fn pair_views(repos: Seq<(String, String)>) -> Seq<(Seq<char>, Seq<char>)> {
    repos.map_values(|r: (String, String)| (r.0@, r.1@))
}

/// The worktrees of a workspace, from the path and branch of each repository found in
/// it, default ones first. Whether each is the current one and holds secrets is left
/// unset (false): those need the filesystem.
pub fn workspace_worktrees(repos: &Vec<(String, String)>, default_branch: &Option<String>) -> (r: Vec<
    Worktree,
>)
    ensures
        models(r@) == main_first(repo_worktrees(pair_views(repos@), opt_view(*default_branch))),
        forall|i: int| 0 <= i < r@.len() ==> !(#[trigger] r@[i]).is_current && !r@[i].has_secrets,
        match *default_branch {
            Some(d) => forall|i: int|
                0 <= i < r@.len() ==> (#[trigger] r@[i]).is_main == (r@[i].branch@ == d@),
            None => true,
        },
{
    let ghost db = opt_view(*default_branch);
    let ghost pv = pair_views(repos@);
    let mut found: Vec<Worktree> = Vec::new();
    let mut i: usize = 0;
    while i < repos.len()
        invariant
            i <= repos@.len(),
            db == opt_view(*default_branch),
            pv == pair_views(repos@),
            models(found@) == repo_worktrees(pv.take(i as int), db),
            forall|k: int|
                0 <= k < found@.len() ==> !(#[trigger] found@[k]).is_current && !found@[k].has_secrets,
        decreases repos@.len() - i,
    {
        proof {
            let tk = pv.take(i + 1);
            assert(tk.drop_last() == pv.take(i as int));
            assert(tk.last() == (repos@[i as int].0@, repos@[i as int].1@));
        }
        let path = repos[i].0.clone();
        let branch = repos[i].1.clone();
        let is_main = match default_branch {
            Some(d) => str_eq(branch.as_str(), d.as_str()),
            None => found.len() == 0,
        };
        let w = Worktree { path, branch, is_main, is_current: false, has_secrets: false };
        proof {
            lemma_models_push(found@, w);
        }
        found.push(w);
        i += 1;
    }
    assert(pv.take(pv.len() as int) == pv);
    let r = main_first_exec(&found);
    proof {
        if let Some(d) = default_branch {
            lemma_workspace_marks_default_branch(pv, d@);
            assert forall|i: int| 0 <= i < r@.len() implies (#[trigger] r@[i]).is_main == (
            r@[i].branch@ == d@) by {
                assert(models(r@)[i] == model_of(r@[i]));
            }
        }
    }
    r
}

/// With a known default branch `d`, each repository of a workspace is marked default
/// exactly when its branch is `d`.
pub proof fn lemma_workspace_marks_default_branch(repos: Seq<(Seq<char>, Seq<char>)>, d: Seq<char>)
    ensures
        marks_branch(main_first(repo_worktrees(repos, Some(d))), d),
{
    lemma_repo_worktrees_marks(repos, d);
    lemma_main_first_marks(repo_worktrees(repos, Some(d)), d);
}

/// With a known default branch, each repository is marked default exactly when its
/// branch is that branch.
proof fn lemma_repo_worktrees_marks(repos: Seq<(Seq<char>, Seq<char>)>, d: Seq<char>)
    ensures
        marks_branch(repo_worktrees(repos, Some(d)), d),
    decreases repos.len(),
{
    if repos.len() > 0 {
        lemma_repo_worktrees_marks(repos.drop_last(), d);
    }
}

// ───────────────────────────── clone errors ─────────────────────────────

/// A line of a failed clone's output that names the problem.
pub open spec fn is_important_line(l: Seq<char>) -> bool {
    let lower = ascii_lower_seq(l);
    has_prefix(lower, "fatal:"@) || has_prefix(lower, "error:"@) || has_infix(
        lower,
        "permission denied"@,
    ) || has_infix(lower, "not found"@)
}

/// The last line of `ls` that names the problem.
pub open spec fn last_important(ls: Seq<Seq<char>>) -> Option<Seq<char>>
    decreases ls.len(),
{
    if ls.len() == 0 {
        None
    } else if is_important_line(ls.last()) {
        Some(ls.last())
    } else {
        last_important(ls.drop_last())
    }
}

/// The first line of `ls` that is not git's "Cloning into" notice.
pub open spec fn first_not_cloning(ls: Seq<Seq<char>>) -> Option<Seq<char>>
    decreases ls.len(),
{
    if ls.len() == 0 {
        None
    } else if !has_prefix(ls[0], "Cloning into "@) {
        Some(ls[0])
    } else {
        first_not_cloning(ls.drop_first())
    }
}

/// At most the first 80 characters of `s`.
pub open spec fn first80(s: Seq<char>) -> Seq<char> {
    if s.len() <= 80 {
        s
    } else {
        s.take(80)
    }
}

/// The one line shown for a failed clone: the last line naming the problem, else the
/// first one that is not git's notice, at most 80 characters.
pub open spec fn clone_error_summary(err: Seq<char>) -> Seq<char> {
    let ls = trimmed_nonempty(lines_seq(err));
    if ls.len() == 0 {
        first80(err)
    } else {
        first80(
            match last_important(ls) {
                Some(l) => l,
                None => match first_not_cloning(ls) {
                    Some(l) => l,
                    None => ls[0],
                },
            },
        )
    }
}

/// The first 80 characters of a string.
fn take80(s: &str) -> (r: String)
    ensures
        r@ == first80(s@),
{
    let v = crate::text::chars_of(s);
    let n = if v.len() <= 80 {
        v.len()
    } else {
        80
    };
    assert(v@.subrange(0, n as int) == first80(s@));
    crate::text::string_of_range(v.as_slice(), 0, n)
}

/// Whether a line of a failed clone's output names the problem.
fn important_line(l: &str) -> (r: bool)
    ensures
        r == is_important_line(l@),
{
    let lower = crate::text::to_ascii_lowercase(l);
    starts_with(lower.as_str(), "fatal:") || starts_with(lower.as_str(), "error:") || contains(
        lower.as_str(),
        "permission denied",
    ) || contains(lower.as_str(), "not found")
}

/// Shortens the output of a failed clone to the one line worth showing.
pub fn summarize_clone_error(err: &str) -> (r: String)
    ensures
        r@ == clone_error_summary(err@),
{
    let ls = parse_remotes(err);
    let ghost l = views(ls@);
    if ls.len() == 0 {
        return take80(err);
    }
    let mut i: usize = ls.len();
    assert(l.take(l.len() as int) == l);
    while i > 0
        invariant
            i <= ls@.len(),
            l == views(ls@),
            l == trimmed_nonempty(lines_seq(err@)),
            l.len() > 0,
            last_important(l) == last_important(l.take(i as int)),
        decreases i,
    {
        proof {
            let t = l.take(i as int);
            assert(t.last() == ls@[i - 1]@);
            assert(t.drop_last() == l.take(i - 1));
        }
        if important_line(ls[i - 1].as_str()) {
            return take80(ls[i - 1].as_str());
        }
        i -= 1;
    }
    let mut k: usize = 0;
    assert(l.skip(0) == l);
    while k < ls.len()
        invariant
            k <= ls@.len(),
            l == views(ls@),
            l == trimmed_nonempty(lines_seq(err@)),
            l.len() > 0,
            last_important(l) is None,
            first_not_cloning(l) == first_not_cloning(l.skip(k as int)),
        decreases ls@.len() - k,
    {
        assert(l.skip(k as int)[0] == ls@[k as int]@);
        assert(l.skip(k as int).drop_first() == l.skip(k + 1));
        if !starts_with(ls[k].as_str(), "Cloning into ") {
            return take80(ls[k].as_str());
        }
        k += 1;
    }
    assert(l[0] == ls@[0]@);
    take80(ls[0].as_str())
}

} // verus!
