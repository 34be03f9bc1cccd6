//! Repository-local options: the commands run after a new worktree is created.
use vstd::prelude::*;
use crate::git::{join_path, worktree_path_for_name};
use crate::text::{is_blank, trim_seq};

verus! {

/// The file, in the repository's common git directory, that holds its options.
pub const REPO_CONFIG_FILE: &'static str = "worktree-navigator.json";

/// Where a repository keeps its options: `REPO_CONFIG_FILE` inside its common git
/// directory `common_dir`.
pub fn repo_config_path(common_dir: &str) -> (r: String)
    ensures
        r@ == join_path(common_dir@, REPO_CONFIG_FILE@),
{
    worktree_path_for_name(common_dir, REPO_CONFIG_FILE)
}

/// A shell command run inside each new worktree.
#[derive(Debug, Clone)]
pub struct PostCreateScript {
    pub command: String,
    pub enabled: bool,
}

/// The options stored for one repository.
#[derive(Debug, Clone)]
pub struct RepoConfig {
    pub post_create_scripts: Vec<PostCreateScript>,
}

/// A request, handed to the shell wrapper, to run the setup steps of a new worktree.
#[derive(Debug, Clone)]
pub struct PostCreateRequest {
    pub repo_root: String,
    pub worktree_path: String,
    pub branch: String,
    pub base_branch: Option<String>,
    pub scripts: Vec<PostCreateScript>,
}

/// A script runs when it is enabled and its command is not blank.
pub open spec fn is_runnable(s: PostCreateScript) -> bool {
    s.enabled && trim_seq(s.command@).len() > 0
}

/// The value a missing `enabled` field takes.
pub fn default_true() -> (r: bool)
    ensures
        r,
{
    true
}

impl PostCreateScript {
    /// A copy of this script.
    pub fn duplicate(&self) -> (r: PostCreateScript)
        ensures
            r == *self,
    {
        PostCreateScript { command: self.command.clone(), enabled: self.enabled }
    }

    /// Whether this script runs after a worktree is created.
    pub fn runnable(&self) -> (r: bool)
        ensures
            r == is_runnable(*self),
    {
        self.enabled && !is_blank(self.command.as_str())
    }
}

impl RepoConfig {
    /// The empty configuration, used when none is stored.
    pub fn empty() -> (r: RepoConfig)
        ensures
            r.post_create_scripts@.len() == 0,
    {
        RepoConfig { post_create_scripts: Vec::new() }
    }

    /// A copy of this configuration.
    pub fn duplicate(&self) -> (r: RepoConfig)
        ensures
            r.post_create_scripts@ == self.post_create_scripts@,
    {
        RepoConfig { post_create_scripts: copy_scripts(&self.post_create_scripts) }
    }

    /// The scripts that run after a worktree is created, in order: enabled ones whose
    /// command is not blank.
    pub fn enabled_post_create_scripts(&self) -> (r: Vec<PostCreateScript>)
        ensures
            r@ == self.post_create_scripts@.filter(|s: PostCreateScript| is_runnable(s)),
    {
        enabled_scripts(&self.post_create_scripts)
    }
}

/// A copy of a list of scripts.
pub fn copy_scripts(v: &Vec<PostCreateScript>) -> (r: Vec<PostCreateScript>)
    ensures
        r@ == v@,
{
    let mut out: Vec<PostCreateScript> = Vec::new();
    let mut i: usize = 0;
    while i < v.len()
        invariant
            i <= v.len(),
            out@ == v@.take(i as int),
        decreases v.len() - i,
    {
        out.push(v[i].duplicate());
        assert(v@.take(i + 1) == v@.take(i as int).push(v@[i as int]));
        i += 1;
    }
    assert(v@.take(v.len() as int) == v@);
    out
}

/// The runnable scripts of a list, in order.
pub fn enabled_scripts(v: &Vec<PostCreateScript>) -> (r: Vec<PostCreateScript>)
    ensures
        r@ == v@.filter(|s: PostCreateScript| is_runnable(s)),
{
    let mut out: Vec<PostCreateScript> = Vec::new();
    let mut i: usize = 0;
    while i < v.len()
        invariant
            i <= v.len(),
            out@ == v@.take(i as int).filter(|s: PostCreateScript| is_runnable(s)),
        decreases v.len() - i,
    {
        let keep = v[i].runnable();
        if keep {
            out.push(v[i].duplicate());
        }
        proof {
            reveal_with_fuel(Seq::<_>::filter, 1);
            let t = v@.take(i + 1);
            assert(t.drop_last() == v@.take(i as int));
            assert(t.last() == v@[i as int]);
            assert(is_runnable(t.last()) == keep);
        }
        i += 1;
    }
    assert(v@.take(v.len() as int) == v@);
    out
}

/// How many scripts of a list run.
pub fn count_enabled_scripts(v: &Vec<PostCreateScript>) -> (n: usize)
    ensures
        n == v@.filter(|s: PostCreateScript| is_runnable(s)).len(),
{
    enabled_scripts(v).len()
}

} // verus!
