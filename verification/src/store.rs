//! The state kept between runs: the registered projects and, per repository, the last
//! worktree list, so the navigator can draw before it asks git.
use vstd::prelude::*;

use crate::projects::Project;
use crate::text::{owned, str_eq};
use crate::types::Worktree;

verus! {

/// The worktrees last seen for one repository root.
#[derive(Debug, Clone)]
pub struct CachedWorktrees {
    pub repo_root: String,
    pub worktrees: Vec<Worktree>,
}

/// Everything kept between runs.
#[derive(Debug, Clone)]
pub struct State {
    pub projects: Vec<Project>,
    /// At most one entry per repository root.
    pub worktrees: Vec<CachedWorktrees>,
}

/// Whether entry `i` of the cache is for `root`.
pub open spec fn entry_for(entries: Seq<CachedWorktrees>, i: int, root: Seq<char>) -> bool {
    0 <= i < entries.len() && entries[i].repo_root@ == root
}

impl State {
    /// No repository root has two entries.
    pub open spec fn wf(&self) -> bool {
        forall|i: int, j: int|
            0 <= i < self.worktrees@.len() && 0 <= j < self.worktrees@.len() && i != j
                ==> self.worktrees@[i].repo_root@ != self.worktrees@[j].repo_root@
    }

    /// The cache as a map from repository root to its worktrees.
    pub open spec fn cache(&self) -> Map<Seq<char>, Seq<Worktree>> {
        Map::new(
            |root: Seq<char>| exists|i: int| entry_for(self.worktrees@, i, root),
            |root: Seq<char>|
                {
                    let i = choose|i: int| entry_for(self.worktrees@, i, root);
                    self.worktrees@[i].worktrees@
                },
        )
    }

    /// The state of a first run: nothing registered, nothing cached.
    pub fn empty() -> (r: State)
        ensures
            r.wf(),
            r.projects@.len() == 0,
            r.cache() == Map::<Seq<char>, Seq<Worktree>>::empty(),
    {
        let r = State { projects: Vec::new(), worktrees: Vec::new() };
        assert(r.cache() =~= Map::<Seq<char>, Seq<Worktree>>::empty());
        r
    }
}

/// A copy of a worktree list.
pub fn copy_worktrees(v: &[Worktree]) -> (r: Vec<Worktree>)
    ensures
        r@ == v@,
{
    let mut out: Vec<Worktree> = Vec::new();
    let mut i: usize = 0;
    while i < v.len()
        invariant
            i <= v.len(),
            out@ == v@.take(i as int),
        decreases v.len() - i,
    {
        out.push(v[i].duplicate());
        assert(v@.take(i + 1) == v@.take(i as int).push(v@[i as int]));
        i += 1;
    }
    assert(v@.take(v@.len() as int) == v@);
    out
}

/// The index of the entry for `root`, if any.
fn find_entry(state: &State, root: &str) -> (r: Option<usize>)
    ensures
        r matches Some(i) ==> entry_for(state.worktrees@, i as int, root@),
        r is None ==> forall|i: int| !entry_for(state.worktrees@, i, root@),
{
    let mut i: usize = 0;
    while i < state.worktrees.len()
        invariant
            i <= state.worktrees@.len(),
            forall|j: int| 0 <= j < i ==> !entry_for(state.worktrees@, j, root@),
        decreases state.worktrees@.len() - i,
    {
        if str_eq(state.worktrees[i].repo_root.as_str(), root) {
            return Some(i);
        }
        i += 1;
    }
    None
}

/// The worktrees cached for `repo_root`, as they were saved.
pub fn cached_worktrees(state: &State, repo_root: &str) -> (r: Option<Vec<Worktree>>)
    requires
        state.wf(),
    ensures
        r is Some <==> state.cache().dom().contains(repo_root@),
        r matches Some(w) ==> w@ == state.cache()[repo_root@],
{
    match find_entry(state, repo_root) {
        Some(i) => {
            proof {
                let k = choose|k: int| entry_for(state.worktrees@, k, repo_root@);
                assert(entry_for(state.worktrees@, k, repo_root@));
                assert(k == i);
            }
            Some(copy_worktrees(state.worktrees[i].worktrees.as_slice()))
        },
        None => None,
    }
}

/// Records `worktrees` as the list of `repo_root`, replacing an earlier one.
pub fn save_worktrees(state: &mut State, repo_root: &str, worktrees: &[Worktree])
    requires
        old(state).wf(),
    ensures
        final(state).wf(),
        final(state).projects@ == old(state).projects@,
        final(state).cache() == old(state).cache().insert(repo_root@, worktrees@),
{
    let entry = CachedWorktrees {
        repo_root: owned(repo_root),
        worktrees: copy_worktrees(worktrees),
    };
    let ghost before = old(state).worktrees@;
    match find_entry(state, repo_root) {
        Some(i) => {
            state.worktrees.set(i, entry);
            proof {
                let after = state.worktrees@;
                assert(after == before.update(i as int, entry));
                assert forall|a: int, b: int|
                    0 <= a < after.len() && 0 <= b < after.len() && a != b implies after[a].repo_root@
                        != after[b].repo_root@ by {
                    if a == i {
                        assert(before[b].repo_root@ != before[a].repo_root@);
                    } else if b == i {
                        assert(before[b].repo_root@ != before[a].repo_root@);
                    }
                }
                assert forall|root: Seq<char>|
                    #![trigger old(state).cache().insert(repo_root@, worktrees@).dom().contains(root)]
                    (exists|j: int| entry_for(after, j, root)) == old(state).cache().insert(
                        repo_root@,
                        worktrees@,
                    ).dom().contains(root) by {
                    if root == repo_root@ {
                        assert(entry_for(after, i as int, root));
                    } else {
                        if exists|j: int| entry_for(after, j, root) {
                            let j = choose|j: int| entry_for(after, j, root);
                            assert(entry_for(before, j, root));
                        }
                        if exists|j: int| entry_for(before, j, root) {
                            let j = choose|j: int| entry_for(before, j, root);
                            assert(j != i);
                            assert(entry_for(after, j, root));
                        }
                    }
                }
                assert forall|root: Seq<char>|
                    #[trigger] old(state).cache().insert(repo_root@, worktrees@).dom().contains(root)
                        implies state.cache()[root] == old(state).cache().insert(
                        repo_root@,
                        worktrees@,
                    )[root] by {
                    let j = choose|j: int| entry_for(after, j, root);
                    if root == repo_root@ {
                        assert(entry_for(after, i as int, root));
                        assert(j == i);
                    } else {
                        assert(j != i);
                        assert(entry_for(before, j, root));
                        let k = choose|k: int| entry_for(before, k, root);
                        assert(k == j);
                    }
                }
                assert(state.cache() =~= old(state).cache().insert(repo_root@, worktrees@));
            }
        },
        None => {
            state.worktrees.push(entry);
            proof {
                let after = state.worktrees@;
                let n = before.len() as int;
                assert(after == before.push(entry));
                assert forall|a: int, b: int|
                    0 <= a < after.len() && 0 <= b < after.len() && a != b implies after[a].repo_root@
                        != after[b].repo_root@ by {
                    if a == n {
                        assert(!entry_for(before, b, repo_root@));
                    } else if b == n {
                        assert(!entry_for(before, a, repo_root@));
                    }
                }
                assert forall|root: Seq<char>|
                    #![trigger old(state).cache().insert(repo_root@, worktrees@).dom().contains(root)]
                    (exists|j: int| entry_for(after, j, root)) == old(state).cache().insert(
                        repo_root@,
                        worktrees@,
                    ).dom().contains(root) by {
                    if root == repo_root@ {
                        assert(entry_for(after, n, root));
                    } else {
                        if exists|j: int| entry_for(after, j, root) {
                            let j = choose|j: int| entry_for(after, j, root);
                            assert(j != n);
                            assert(entry_for(before, j, root));
                        }
                        if exists|j: int| entry_for(before, j, root) {
                            let j = choose|j: int| entry_for(before, j, root);
                            assert(entry_for(after, j, root));
                        }
                    }
                }
                assert forall|root: Seq<char>|
                    #[trigger] old(state).cache().insert(repo_root@, worktrees@).dom().contains(root)
                        implies state.cache()[root] == old(state).cache().insert(
                        repo_root@,
                        worktrees@,
                    )[root] by {
                    let j = choose|j: int| entry_for(after, j, root);
                    if root == repo_root@ {
                        assert(entry_for(after, n, root));
                        if j < n {
                            assert(entry_for(before, j, root));
                        }
                        assert(j == n);
                    } else {
                        assert(j != n);
                        assert(entry_for(before, j, root));
                        let k = choose|k: int| entry_for(before, k, root);
                        assert(k == j);
                    }
                }
                assert(state.cache() =~= old(state).cache().insert(repo_root@, worktrees@));
            }
        },
    }
}

/// Reading a root back after saving its worktrees gives what was saved, and every other
/// root keeps what it had.
pub proof fn lemma_read_after_write(s: State, t: State, root: Seq<char>, ws: Seq<Worktree>, other: Seq<char>)
    requires
        s.wf(),
        t.cache() == s.cache().insert(root, ws),
    ensures
        t.cache().dom().contains(root) && t.cache()[root] == ws,
        other != root ==> (t.cache().dom().contains(other) == s.cache().dom().contains(other)
            && t.cache()[other] == s.cache()[other]),
{
}

/// Marks as current exactly the worktrees whose path resolves to the working directory.
pub fn set_current_flags(worktrees: &mut Vec<Worktree>, is_cwd: &Vec<bool>)
    requires
        old(worktrees)@.len() == is_cwd@.len(),
    ensures
        final(worktrees)@.len() == old(worktrees)@.len(),
        forall|i: int|
            0 <= i < final(worktrees)@.len() ==> #[trigger] final(worktrees)@[i] == (Worktree {
                is_current: is_cwd@[i],
                ..old(worktrees)@[i]
            }),
{
    let mut i: usize = 0;
    while i < worktrees.len()
        invariant
            i <= worktrees@.len(),
            worktrees@.len() == old(worktrees)@.len() == is_cwd@.len(),
            forall|j: int|
                0 <= j < i ==> #[trigger] worktrees@[j] == (Worktree {
                    is_current: is_cwd@[j],
                    ..old(worktrees)@[j]
                }),
            forall|j: int| i <= j < worktrees@.len() ==> #[trigger] worktrees@[j] == old(worktrees)@[j],
        decreases worktrees@.len() - i,
    {
        let mut w = worktrees[i].duplicate();
        w.is_current = is_cwd[i];
        worktrees.set(i, w);
        i += 1;
    }
}

} // verus!
