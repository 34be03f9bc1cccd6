//! The data that the navigator works on.
use vstd::prelude::*;

verus! {

/// One checked-out worktree of a repository or workspace.
#[derive(Debug, Clone)]
pub struct Worktree {
    pub path: String,
    pub branch: String,
    pub is_main: bool,
    pub is_current: bool,
    pub has_secrets: bool,
}

impl Worktree {
    /// A copy of this worktree.
    pub fn duplicate(&self) -> (r: Worktree)
        ensures
            r == *self,
    {
        Worktree {
            path: self.path.clone(),
            branch: self.branch.clone(),
            is_main: self.is_main,
            is_current: self.is_current,
            has_secrets: self.has_secrets,
        }
    }
}

/// The overlay (or none) that currently owns the keyboard.
#[derive(Debug, Clone, Copy, PartialEq, Eq, Structural)]
pub enum ActiveAction {
    /// No overlay: the main list has the keyboard.
    Idle,
    NewBranch,
    Rename,
    SyncPr,
    SyncTrees,
    Delete,
    CopySecrets,
    Options,
    CloneRepo,
    CheckoutRemote,
}

/// Phases of the options overlay.
#[derive(Debug, Clone, Copy, PartialEq, Eq, Structural)]
pub enum OptionsPhase {
    BrowsingScripts,
    Editing,
}

/// Phases of the checkout-remote overlay.
#[derive(Debug, Clone, Copy, PartialEq, Eq, Structural)]
pub enum CheckoutRemotePhase {
    SelectRemote,
    FetchingRemote,
    EnterBranch,
    CreatingWorktree,
}

/// Phases of the copy-secrets overlay.
#[derive(Debug, Clone, Copy, PartialEq, Eq, Structural)]
pub enum CopySecretsPhase {
    SelectSource,
    SelectTarget,
    ConfirmOverwrite,
}

/// Outcome of fast-forwarding one worktree.
#[derive(Debug, Clone)]
pub enum SyncStatus {
    UpToDate,
    /// The commit range, e.g. `a1b2c3..d4e5f6`.
    Updated(String),
    /// Why nothing was done (dirty tree, no upstream, ...).
    Skipped(String),
    Error(String),
}

/// The result of syncing one branch.
#[derive(Debug, Clone)]
pub struct SyncResult {
    pub branch: String,
    pub status: SyncStatus,
}

/// What a background clone reports.
#[derive(Debug, Clone)]
pub enum CloneEvent {
    /// The path of the default-branch worktree of the new workspace.
    Finished(String),
    Error(String),
}

/// What a background pull-request checkout reports.
#[derive(Debug, Clone)]
pub enum SyncPrEvent {
    Progress { line: String },
    Finished { worktree_path: String, branch: String, base_branch: Option<String>, created: bool },
    Error(String),
}

} // verus!
