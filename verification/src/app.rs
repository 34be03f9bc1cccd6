//! The state of the interactive navigator and its text-input editing.
use vstd::prelude::*;

use crate::config::RepoConfig;
use crate::input::{
    after_backspace, backspace, cursor_pos, delete_under, delete_word_right, end_of, insert_at, insert_char, insert_text,
    remove_range, split_at_cursor, step_left, step_right, word_left, word_left_of, word_right, word_right_of,
};
use crate::types::{
    ActiveAction, CheckoutRemotePhase, CopySecretsPhase, OptionsPhase, SyncResult, Worktree,
};

verus! {

// ───────────────────────────── commands ─────────────────────────────

/// How many commands the command list shows above the worktrees.
pub const COMMAND_COUNT: usize = 8;

/// The action that the command in row `i` of the command list opens.
pub open spec fn command_action(i: int) -> ActiveAction {
    if i == 0 {
        ActiveAction::NewBranch
    } else if i == 1 {
        ActiveAction::Rename
    } else if i == 2 {
        ActiveAction::SyncPr
    } else if i == 3 {
        ActiveAction::Delete
    } else if i == 4 {
        ActiveAction::SyncTrees
    } else if i == 5 {
        ActiveAction::CopySecrets
    } else if i == 6 {
        ActiveAction::Options
    } else {
        ActiveAction::CheckoutRemote
    }
}

/// The key that opens the command in row `i` of the command list.
pub open spec fn command_key(i: int) -> char {
    if i == 0 {
        'b'
    } else if i == 1 {
        'm'
    } else if i == 2 {
        'p'
    } else if i == 3 {
        'd'
    } else if i == 4 {
        's'
    } else if i == 5 {
        'c'
    } else if i == 6 {
        'o'
    } else {
        'r'
    }
}

/// The action of the command in row `idx`, if there is such a row.
pub fn command_action_for_index(idx: usize) -> (r: Option<ActiveAction>)
    ensures
        idx < COMMAND_COUNT ==> r == Some(command_action(idx as int)),
        idx >= COMMAND_COUNT ==> r is None,
{
    match idx {
        0 => Some(ActiveAction::NewBranch),
        1 => Some(ActiveAction::Rename),
        2 => Some(ActiveAction::SyncPr),
        3 => Some(ActiveAction::Delete),
        4 => Some(ActiveAction::SyncTrees),
        5 => Some(ActiveAction::CopySecrets),
        6 => Some(ActiveAction::Options),
        7 => Some(ActiveAction::CheckoutRemote),
        _ => None,
    }
}

/// The action whose shortcut key is `c`, if any.
pub fn command_action_for_shortcut(c: char) -> (r: Option<ActiveAction>)
    ensures
        (exists|i: int| 0 <= i < COMMAND_COUNT && command_key(i) == c) ==> (exists|i: int|
            0 <= i < COMMAND_COUNT && command_key(i) == c && r == Some(command_action(i))),
        (forall|i: int| 0 <= i < COMMAND_COUNT ==> command_key(i) != c) ==> r is None,
{
    let r = match c {
        'b' => Some(ActiveAction::NewBranch),
        'm' => Some(ActiveAction::Rename),
        'p' => Some(ActiveAction::SyncPr),
        'd' => Some(ActiveAction::Delete),
        's' => Some(ActiveAction::SyncTrees),
        'c' => Some(ActiveAction::CopySecrets),
        'o' => Some(ActiveAction::Options),
        'r' => Some(ActiveAction::CheckoutRemote),
        _ => None,
    };
    assert(command_key(0) == 'b' && command_key(1) == 'm' && command_key(2) == 'p' && command_key(
        3,
    ) == 'd' && command_key(4) == 's' && command_key(5) == 'c' && command_key(6) == 'o'
        && command_key(7) == 'r');
    r
}

/// The label of the command in row `i` (rows past the last name the last command).
pub open spec fn command_name(i: int) -> Seq<char> {
    if i == 0 {
        "New Branch"@
    } else if i == 1 {
        "Rename Worktree"@
    } else if i == 2 {
        "Sync with PR"@
    } else if i == 3 {
        "Delete Worktree"@
    } else if i == 4 {
        "Sync Worktree"@
    } else if i == 5 {
        "Copy Secrets"@
    } else if i == 6 {
        "Options"@
    } else {
        "Checkout Remote"@
    }
}

/// The label of the command in row `idx`.
pub fn command_label(idx: usize) -> (r: &'static str)
    ensures
        r@ == command_name(idx as int),
{
    match idx {
        0 => "New Branch",
        1 => "Rename Worktree",
        2 => "Sync with PR",
        3 => "Delete Worktree",
        4 => "Sync Worktree",
        5 => "Copy Secrets",
        6 => "Options",
        _ => "Checkout Remote",
    }
}

/// The shortcut key of the command in row `idx`.
pub fn command_shortcut(idx: usize) -> (c: char)
    requires
        idx < COMMAND_COUNT,
    ensures
        c == command_key(idx as int),
{
    match idx {
        0 => 'b',
        1 => 'm',
        2 => 'p',
        3 => 'd',
        4 => 's',
        5 => 'c',
        6 => 'o',
        _ => 'r',
    }
}

// ───────────────────────────── the application state ─────────────────────────────

/// A long-running operation that runs on the console, outside the full-screen view.
#[derive(Debug, Clone)]
pub enum PendingConsoleOperation {
    CloneRepo { url: String, dest: String },
    SyncPr { pr_number: u32 },
    SyncWorktree { wt: Worktree },
    FetchRemote { remote: String },
}

/// How the options overlay changed the scripts.
#[derive(Debug, Clone, Copy, PartialEq, Eq, Structural)]
pub enum ConfigChange {
    /// A script's command was typed; `appended` when it is a new script.
    Edit { appended: bool },
    /// A script was switched on or off.
    Toggle,
    /// A script was removed.
    Remove,
}

/// A change of the repository options that waits to be saved.
#[derive(Debug, Clone)]
pub struct ConfigSave {
    /// The options as they are once saved.
    pub config: RepoConfig,
    pub change: ConfigChange,
}

impl App {
    /// The sizes the navigator computes with stay below the machine limits, and the
    /// cursor stands within the text.
    pub open spec fn inv(&self) -> bool {
        &&& self.input_cursor <= self.input_buffer@.len()
        &&& self.input_buffer@.len() < usize::MAX
        &&& self.worktrees@.len() + COMMAND_COUNT <= usize::MAX
    }
}

/// The sync overlays: fast-forwarding one worktree, and checking out a pull request.
#[derive(Debug, Clone)]
pub struct SyncState {
    pub selected_idx: usize,
    pub loading: bool,
    /// The chosen worktree waits to be synced.
    pub pending: bool,
    pub fetch_ok: bool,
    pub results: Vec<SyncResult>,
    pub pr_loading: bool,
    /// The progress lines of the pull-request checkout.
    pub pr_output: Vec<String>,
}

/// The new-branch overlay.
#[derive(Debug, Clone)]
pub struct NewBranchState {
    pub loading: bool,
    /// The branch whose worktree waits to be created.
    pub pending: Option<String>,
    /// The branch the new one starts from.
    pub base: Option<String>,
    /// The pending branch exists already and gets a worktree as it is.
    pub use_existing: bool,
    /// The typed branch exists; the user is asked whether to use it.
    pub confirm_existing: Option<String>,
    pub confirm_yes: bool,
    /// The typed branch waits for a check whether it exists.
    pub check_pending: Option<String>,
}

/// The rename overlay.
#[derive(Debug, Clone)]
pub struct RenameState {
    pub loading: bool,
    pub target_idx: Option<usize>,
    /// The worktree and its new branch name, waiting to be renamed.
    pub pending: Option<(Worktree, String)>,
}

/// The delete overlay.
#[derive(Debug, Clone)]
pub struct DeleteState {
    pub loading: bool,
    /// The paths of the worktrees that wait to be removed.
    pub pending: Option<Vec<String>>,
    /// The checked worktrees, ascending and without repeats.
    pub checked: Vec<usize>,
    pub confirming: bool,
    /// The selection holds the current worktree; the user is warned first.
    pub warn_current: bool,
    pub confirm_targets: Vec<usize>,
    pub confirm_yes: bool,
    /// Where the shell goes when the current worktree is removed.
    pub redirect_path: Option<String>,
}

/// The copy-secrets overlay.
#[derive(Debug, Clone)]
pub struct CopySecretsState {
    pub loading: bool,
    /// The copy waits to be done.
    pub pending: bool,
    pub phase: CopySecretsPhase,
    pub source_idx: Option<usize>,
    pub target_idx: usize,
    pub confirm_yes: bool,
}

/// The options overlay.
#[derive(Debug, Clone)]
pub struct OptionsState {
    pub phase: OptionsPhase,
    pub selected_idx: usize,
    /// The script being edited; none while a new one is typed.
    pub edit_idx: Option<usize>,
    /// Changed options that wait to be saved.
    pub save_pending: Option<ConfigSave>,
}

/// The checkout-remote overlay.
#[derive(Debug, Clone)]
pub struct CheckoutRemoteState {
    pub phase: CheckoutRemotePhase,
    pub name: String,
    pub remotes: Vec<String>,
    pub branches: Vec<String>,
    /// The remote and branch whose worktree waits to be created.
    pub pending: Option<(String, String)>,
    /// The list of remotes must be read before the overlay can go on.
    pub list_pending: bool,
}

/// The clone flow.
#[derive(Debug, Clone)]
pub struct CloneState {
    /// Zero while the source is typed, one while the destination is.
    pub step: u8,
    pub url: String,
    pub loading: bool,
    pub error: Option<String>,
}

/// What the last drawn frame looked like, for mouse hit tests.
#[derive(Debug, Clone)]
pub struct ScreenState {
    /// Screen row and item index of each drawn list row.
    pub item_rows: Vec<(u16, usize)>,
    /// The row under the mouse, highlighted.
    pub hovered_row: Option<u16>,
    pub frame_width: u16,
    pub frame_height: u16,
}

/// Work that runs on the console, outside the full-screen view.
#[derive(Debug, Clone)]
pub struct ConsoleState {
    pub pending_operation: Option<PendingConsoleOperation>,
    /// The terminal is handed to a console operation.
    pub handoff_active: bool,
    /// The full-screen view must be restored once the operation is over.
    pub handoff_needs_resume: bool,
}

/// Everything the navigator shows and remembers between key presses.
#[derive(Debug, Clone)]
pub struct App {
    pub repo_root: String,
    pub no_repo: bool,
    pub is_workspace: bool,
    pub worktrees: Vec<Worktree>,
    pub worktrees_loading: bool,
    pub worktrees_error: Option<String>,
    /// The worktree list must be read again.
    pub refresh_pending: bool,
    pub repo_config: RepoConfig,
    pub selected_index: usize,
    pub active_action: ActiveAction,
    pub input_buffer: String,
    pub input_cursor: usize,
    pub overlay_index: usize,
    pub overlay_error: Option<String>,
    pub loading_frame: usize,
    pub sync: SyncState,
    pub new_branch: NewBranchState,
    pub rename: RenameState,
    pub delete: DeleteState,
    pub copy_secrets: CopySecretsState,
    pub options: OptionsState,
    pub checkout_remote: CheckoutRemoteState,
    pub clone: CloneState,
    pub screen: ScreenState,
    pub console: ConsoleState,
    pub exit_path: Option<String>,
    pub exit_post_create_request: Option<String>,
    pub should_quit: bool,
}

/// The fields of `App`, to name the ones an operation may change.
#[derive(Debug, Clone, Copy, PartialEq, Eq, Structural)]
pub enum Field {
    RepoRoot,
    NoRepo,
    IsWorkspace,
    Worktrees,
    WorktreesLoading,
    WorktreesError,
    RefreshPending,
    RepoConfig,
    SelectedIndex,
    ActiveAction,
    InputBuffer,
    InputCursor,
    OverlayIndex,
    OverlayError,
    LoadingFrame,
    Sync,
    NewBranch,
    Rename,
    Delete,
    CopySecrets,
    Options,
    CheckoutRemote,
    Clone,
    Screen,
    Console,
    ExitPath,
    ExitPostCreateRequest,
    ShouldQuit,
}

/// The worktree under the list selection, if the selection is on a worktree.
pub open spec fn selected_wt(a: App) -> Option<int> {
    if a.selected_index >= COMMAND_COUNT && a.selected_index - COMMAND_COUNT < a.worktrees@.len() {
        Some(a.selected_index - COMMAND_COUNT)
    } else {
        None
    }
}

/// The first index of `ws` whose worktree satisfies `p`.
pub open spec fn first_where(ws: Seq<Worktree>, p: spec_fn(Worktree) -> bool) -> Option<int> {
    if exists|i: int| 0 <= i < ws.len() && p(ws[i]) {
        Some(
            choose|i: int|
                0 <= i < ws.len() && p(ws[i]) && forall|j: int| 0 <= j < i ==> !p(#[trigger] ws[j]),
        )
    } else {
        None
    }
}

/// The first default-branch worktree.
pub open spec fn first_main(ws: Seq<Worktree>) -> Option<int> {
    first_where(ws, |w: Worktree| w.is_main)
}

/// The first worktree that the shell stands in.
pub open spec fn first_current(ws: Seq<Worktree>) -> Option<int> {
    first_where(ws, |w: Worktree| w.is_current)
}

/// An index as an optional integer.
pub open spec fn opt_index(r: Option<usize>) -> Option<int> {
    match r {
        Some(i) => Some(i as int),
        None => None,
    }
}

/// Some index satisfying `p` makes a least one exist.
proof fn lemma_least_witness(ws: Seq<Worktree>, p: spec_fn(Worktree) -> bool, k: int)
    requires
        0 <= k < ws.len(),
        p(ws[k]),
    ensures
        exists|i: int|
            0 <= i < ws.len() && p(ws[i]) && forall|j: int| 0 <= j < i ==> !p(#[trigger] ws[j]),
    decreases k,
{
    if exists|j: int| 0 <= j < k && p(ws[j]) {
        let j = choose|j: int| 0 <= j < k && p(ws[j]);
        lemma_least_witness(ws, p, j);
    } else {
        assert(forall|j: int| 0 <= j < k ==> !p(#[trigger] ws[j]));
    }
}

/// What `first_where` names is an index of `ws` whose worktree satisfies `p`.
pub proof fn lemma_first_where_in_range(ws: Seq<Worktree>, p: spec_fn(Worktree) -> bool)
    ensures
        first_where(ws, p) matches Some(i) ==> 0 <= i < ws.len() && p(ws[i]),
{
    if exists|k: int| 0 <= k < ws.len() && p(ws[k]) {
        let k = choose|k: int| 0 <= k < ws.len() && p(ws[k]);
        lemma_least_witness(ws, p, k);
    }
}

/// The least index satisfying `p` is what `first_where` names.
pub proof fn lemma_first_where(ws: Seq<Worktree>, p: spec_fn(Worktree) -> bool, r: Option<usize>)
    requires
        r matches Some(i) ==> i < ws.len() && p(ws[i as int]) && forall|j: int|
            0 <= j < i ==> !p(ws[j]),
        r is None ==> forall|j: int| 0 <= j < ws.len() ==> !p(ws[j]),
    ensures
        first_where(ws, p) == opt_index(r),
{
    match r {
        Some(i) => {
            let k = choose|k: int|
                0 <= k < ws.len() && p(ws[k]) && forall|j: int| 0 <= j < k ==> !p(#[trigger] ws[j]);
            assert(0 <= i < ws.len() && p(ws[i as int]));
            assert(0 <= k < ws.len() && p(ws[k]) && forall|j: int| 0 <= j < k ==> !p(ws[j]));
            if k < i {
                assert(!p(ws[k]));
            }
            if k > i {
                assert(!p(ws[i as int]));
            }
        },
        None => {},
    }
}

/// A worktree may be deleted when it is neither the default one nor the current one.
pub open spec fn deletable(w: Worktree) -> bool {
    !w.is_main && !w.is_current
}

/// The delete overlay may remove any worktree but the default one (removing the current
/// one is confirmed twice).
pub open spec fn removable(w: Worktree) -> bool {
    !w.is_main
}

impl App {
    /// Every field outside `changed` is the same in `o`.
    pub open spec fn agree_except(&self, o: &App, changed: spec_fn(Field) -> bool) -> bool {
        &&& (changed(Field::RepoRoot) || self.repo_root == o.repo_root)
        &&& (changed(Field::NoRepo) || self.no_repo == o.no_repo)
        &&& (changed(Field::IsWorkspace) || self.is_workspace == o.is_workspace)
        &&& (changed(Field::Worktrees) || self.worktrees == o.worktrees)
        &&& (changed(Field::WorktreesLoading) || self.worktrees_loading == o.worktrees_loading)
        &&& (changed(Field::WorktreesError) || self.worktrees_error == o.worktrees_error)
        &&& (changed(Field::RefreshPending) || self.refresh_pending == o.refresh_pending)
        &&& (changed(Field::RepoConfig) || self.repo_config == o.repo_config)
        &&& (changed(Field::SelectedIndex) || self.selected_index == o.selected_index)
        &&& (changed(Field::ActiveAction) || self.active_action == o.active_action)
        &&& (changed(Field::InputBuffer) || self.input_buffer == o.input_buffer)
        &&& (changed(Field::InputCursor) || self.input_cursor == o.input_cursor)
        &&& (changed(Field::OverlayIndex) || self.overlay_index == o.overlay_index)
        &&& (changed(Field::OverlayError) || self.overlay_error == o.overlay_error)
        &&& (changed(Field::LoadingFrame) || self.loading_frame == o.loading_frame)
        &&& (changed(Field::Sync) || self.sync == o.sync)
        &&& (changed(Field::NewBranch) || self.new_branch == o.new_branch)
        &&& (changed(Field::Rename) || self.rename == o.rename)
        &&& (changed(Field::Delete) || self.delete == o.delete)
        &&& (changed(Field::CopySecrets) || self.copy_secrets == o.copy_secrets)
        &&& (changed(Field::Options) || self.options == o.options)
        &&& (changed(Field::CheckoutRemote) || self.checkout_remote == o.checkout_remote)
        &&& (changed(Field::Clone) || self.clone == o.clone)
        &&& (changed(Field::Screen) || self.screen == o.screen)
        &&& (changed(Field::Console) || self.console == o.console)
        &&& (changed(Field::ExitPath) || self.exit_path == o.exit_path)
        &&& (changed(Field::ExitPostCreateRequest) || self.exit_post_create_request == o.exit_post_create_request)
        &&& (changed(Field::ShouldQuit) || self.should_quit == o.should_quit)
    }

    /// Every field but the text input is the same in `o`.
    pub open spec fn same_but_input(&self, o: &App) -> bool {
        &&& self.repo_root == o.repo_root
        &&& self.no_repo == o.no_repo
        &&& self.is_workspace == o.is_workspace
        &&& self.worktrees == o.worktrees
        &&& self.worktrees_loading == o.worktrees_loading
        &&& self.worktrees_error == o.worktrees_error
        &&& self.refresh_pending == o.refresh_pending
        &&& self.repo_config == o.repo_config
        &&& self.selected_index == o.selected_index
        &&& self.active_action == o.active_action
        &&& self.overlay_index == o.overlay_index
        &&& self.overlay_error == o.overlay_error
        &&& self.loading_frame == o.loading_frame
        &&& self.sync == o.sync
        &&& self.new_branch == o.new_branch
        &&& self.rename == o.rename
        &&& self.delete == o.delete
        &&& self.copy_secrets == o.copy_secrets
        &&& self.options == o.options
        &&& self.checkout_remote == o.checkout_remote
        &&& self.clone == o.clone
        &&& self.screen == o.screen
        &&& self.console == o.console
        &&& self.exit_path == o.exit_path
        &&& self.exit_post_create_request == o.exit_post_create_request
        &&& self.should_quit == o.should_quit
    }

    /// Every field but the loading animation frame is the same in `o`.
    pub open spec fn same_but_loading_frame(&self, o: &App) -> bool {
        &&& self.repo_root == o.repo_root
        &&& self.no_repo == o.no_repo
        &&& self.is_workspace == o.is_workspace
        &&& self.worktrees == o.worktrees
        &&& self.worktrees_loading == o.worktrees_loading
        &&& self.worktrees_error == o.worktrees_error
        &&& self.refresh_pending == o.refresh_pending
        &&& self.repo_config == o.repo_config
        &&& self.selected_index == o.selected_index
        &&& self.active_action == o.active_action
        &&& self.input_buffer == o.input_buffer
        &&& self.input_cursor == o.input_cursor
        &&& self.overlay_index == o.overlay_index
        &&& self.overlay_error == o.overlay_error
        &&& self.sync == o.sync
        &&& self.new_branch == o.new_branch
        &&& self.rename == o.rename
        &&& self.delete == o.delete
        &&& self.copy_secrets == o.copy_secrets
        &&& self.options == o.options
        &&& self.checkout_remote == o.checkout_remote
        &&& self.clone == o.clone
        &&& self.screen == o.screen
        &&& self.console == o.console
        &&& self.exit_path == o.exit_path
        &&& self.exit_post_create_request == o.exit_post_create_request
        &&& self.should_quit == o.should_quit
    }

    /// The cursor never stands past the end of the input.
    pub open spec fn input_ok(&self) -> bool {
        self.input_cursor <= self.input_buffer@.len()
    }

    /// The character position of the input cursor.
    pub open spec fn cpos(&self) -> int {
        cursor_pos(self.input_buffer@, self.input_cursor)
    }

    /// Whether worktree `i` exists and may be deleted.
    pub open spec fn deletable_at(&self, i: int) -> bool {
        0 <= i < self.worktrees@.len() && removable(self.worktrees@[i])
    }

    /// A navigator for `repo_root` that is still reading its worktrees: no overlay, nothing
    /// typed, nothing pending.
    pub fn new(repo_root: String) -> (r: App)
        ensures
            r.repo_root == repo_root,
            r.worktrees@.len() == 0,
            r.worktrees_loading,
            r.worktrees_error is None,
            !r.refresh_pending,
            !r.no_repo,
            !r.is_workspace,
            r.repo_config.post_create_scripts@.len() == 0,
            r.active_action == ActiveAction::Idle,
            r.selected_index == 0,
            r.input_buffer@.len() == 0,
            r.input_cursor == 0,
            r.overlay_index == 0,
            r.overlay_error is None,
            r.loading_frame == 0,
            r.sync.selected_idx == 0 && !r.sync.loading && !r.sync.pending && r.sync.fetch_ok
                && r.sync.results@.len() == 0 && !r.sync.pr_loading && r.sync.pr_output@.len() == 0,
            !r.new_branch.loading && r.new_branch.pending is None && r.new_branch.base is None
                && !r.new_branch.use_existing && r.new_branch.confirm_existing is None
                && !r.new_branch.confirm_yes && r.new_branch.check_pending is None,
            !r.rename.loading && r.rename.target_idx is None && r.rename.pending is None,
            !r.delete.loading && r.delete.pending is None && r.delete.checked@.len() == 0
                && !r.delete.confirming && !r.delete.warn_current
                && r.delete.confirm_targets@.len() == 0 && !r.delete.confirm_yes
                && r.delete.redirect_path is None,
            !r.copy_secrets.loading && !r.copy_secrets.pending && r.copy_secrets.phase
                == CopySecretsPhase::SelectSource && r.copy_secrets.source_idx is None
                && r.copy_secrets.target_idx == 0 && r.copy_secrets.confirm_yes,
            r.options.phase == OptionsPhase::BrowsingScripts && r.options.selected_idx == 0
                && r.options.edit_idx is None && r.options.save_pending is None,
            r.checkout_remote.phase == CheckoutRemotePhase::SelectRemote
                && r.checkout_remote.name@.len() == 0 && r.checkout_remote.remotes@.len() == 0
                && r.checkout_remote.branches@.len() == 0 && r.checkout_remote.pending is None
                && !r.checkout_remote.list_pending,
            r.clone.step == 0 && r.clone.url@.len() == 0 && !r.clone.loading && r.clone.error is None,
            r.screen.item_rows@.len() == 0 && r.screen.hovered_row is None && r.screen.frame_width
                == 0 && r.screen.frame_height == 0,
            r.console.pending_operation is None && !r.console.handoff_active
                && !r.console.handoff_needs_resume,
            r.exit_path is None,
            r.exit_post_create_request is None,
            !r.should_quit,
    {
        App {
            repo_root,
            no_repo: false,
            is_workspace: false,
            worktrees: Vec::new(),
            worktrees_loading: true,
            worktrees_error: None,
            refresh_pending: false,
            repo_config: RepoConfig::empty(),
            selected_index: 0,
            active_action: ActiveAction::Idle,
            input_buffer: String::new(),
            input_cursor: 0,
            overlay_index: 0,
            overlay_error: None,
            loading_frame: 0,
            sync: SyncState {
                selected_idx: 0,
                loading: false,
                pending: false,
                fetch_ok: true,
                results: Vec::new(),
                pr_loading: false,
                pr_output: Vec::new(),
            },
            new_branch: NewBranchState {
                loading: false,
                pending: None,
                base: None,
                use_existing: false,
                confirm_existing: None,
                confirm_yes: false,
                check_pending: None,
            },
            rename: RenameState { loading: false, target_idx: None, pending: None },
            delete: DeleteState {
                loading: false,
                pending: None,
                checked: Vec::new(),
                confirming: false,
                warn_current: false,
                confirm_targets: Vec::new(),
                confirm_yes: false,
                redirect_path: None,
            },
            copy_secrets: CopySecretsState {
                loading: false,
                pending: false,
                phase: CopySecretsPhase::SelectSource,
                source_idx: None,
                target_idx: 0,
                confirm_yes: true,
            },
            options: OptionsState {
                phase: OptionsPhase::BrowsingScripts,
                selected_idx: 0,
                edit_idx: None,
                save_pending: None,
            },
            checkout_remote: CheckoutRemoteState {
                phase: CheckoutRemotePhase::SelectRemote,
                name: String::new(),
                remotes: Vec::new(),
                branches: Vec::new(),
                pending: None,
                list_pending: false,
            },
            clone: CloneState { step: 0, url: String::new(), loading: false, error: None },
            screen: ScreenState {
                item_rows: Vec::new(),
                hovered_row: None,
                frame_width: 0,
                frame_height: 0,
            },
            console: ConsoleState {
                pending_operation: None,
                handoff_active: false,
                handoff_needs_resume: false,
            },
            exit_path: None,
            exit_post_create_request: None,
            should_quit: false,
        }
    }

    /// Rows of the main list: the commands, then the worktrees.
    pub fn total_items(&self) -> (n: usize)
        requires
            self.worktrees@.len() + COMMAND_COUNT <= usize::MAX,
        ensures
            n == COMMAND_COUNT + self.worktrees@.len(),
    {
        COMMAND_COUNT + self.worktrees.len()
    }

    /// Copies of the worktrees that may be deleted, in list order.
    pub fn deletable_worktrees(&self) -> (r: Vec<Worktree>)
        ensures
            r@ == self.worktrees@.filter(|w: Worktree| deletable(w)),
    {
        let mut out: Vec<Worktree> = Vec::new();
        let mut i: usize = 0;
        while i < self.worktrees.len()
            invariant
                i <= self.worktrees@.len(),
                out@ == self.worktrees@.take(i as int).filter(|w: Worktree| deletable(w)),
            decreases self.worktrees@.len() - i,
        {
            let w = &self.worktrees[i];
            let keep = !w.is_main && !w.is_current;
            if keep {
                out.push(w.duplicate());
            }
            proof {
                reveal_with_fuel(Seq::<_>::filter, 1);
                let t = self.worktrees@.take(i + 1);
                assert(t.drop_last() == self.worktrees@.take(i as int));
                assert(t.last() == self.worktrees@[i as int]);
            }
            i += 1;
        }
        assert(self.worktrees@.take(self.worktrees@.len() as int) == self.worktrees@);
        out
    }

    /// Whether worktree `idx` exists and may be deleted.
    pub fn is_deletable_worktree_idx(&self, idx: usize) -> (r: bool)
        ensures
            r == self.deletable_at(idx as int),
    {
        idx < self.worktrees.len() && !self.worktrees[idx].is_main
    }

    /// The lowest index `>= from` of a deletable worktree.
    fn deletable_from(&self, from: usize) -> (r: Option<usize>)
        ensures
            r matches Some(i) ==> from <= i && self.deletable_at(i as int) && forall|j: int|
                from <= j < i ==> !self.deletable_at(j),
            r is None ==> forall|j: int| from <= j ==> !self.deletable_at(j),
    {
        let mut i = from;
        while i < self.worktrees.len()
            invariant
                from <= i,
                forall|j: int| from <= j < i ==> !self.deletable_at(j),
            decreases self.worktrees@.len() - i,
        {
            if self.is_deletable_worktree_idx(i) {
                return Some(i);
            }
            i += 1;
        }
        None
    }

    /// The first deletable worktree.
    pub fn first_deletable_worktree_idx(&self) -> (r: Option<usize>)
        ensures
            r matches Some(i) ==> self.deletable_at(i as int) && forall|j: int|
                0 <= j < i ==> !self.deletable_at(j),
            r is None ==> forall|j: int| !self.deletable_at(j),
            opt_index(r) == first_where(self.worktrees@, |w: Worktree| removable(w)),
    {
        let mut i: usize = 0;
        while i < self.worktrees.len()
            invariant
                i <= self.worktrees@.len(),
                forall|j: int| 0 <= j < i ==> !removable(self.worktrees@[j]),
            decreases self.worktrees@.len() - i,
        {
            if self.is_deletable_worktree_idx(i) {
                proof {
                    lemma_first_where(self.worktrees@, |w: Worktree| removable(w), Some(i));
                }
                return Some(i);
            }
            i += 1;
        }
        proof {
            lemma_first_where(self.worktrees@, |w: Worktree| removable(w), None);
        }
        None
    }

    /// The first deletable worktree after `current`.
    pub fn next_deletable_worktree_idx(&self, current: usize) -> (r: Option<usize>)
        ensures
            r matches Some(i) ==> current < i && self.deletable_at(i as int) && forall|j: int|
                current < j < i ==> !self.deletable_at(j),
            r is None ==> forall|j: int| current < j ==> !self.deletable_at(j),
    {
        if current >= self.worktrees.len() {
            return None;
        }
        self.deletable_from(current + 1)
    }

    /// The last deletable worktree before `current`.
    pub fn previous_deletable_worktree_idx(&self, current: usize) -> (r: Option<usize>)
        ensures
            r matches Some(i) ==> i < current && self.deletable_at(i as int) && forall|j: int|
                i < j < current ==> !self.deletable_at(j),
            r is None ==> forall|j: int| 0 <= j < current ==> !self.deletable_at(j),
    {
        let mut i = current;
        while i > 0
            invariant
                i <= current,
                forall|j: int| i <= j < current ==> !self.deletable_at(j),
            decreases i,
        {
            if self.is_deletable_worktree_idx(i - 1) {
                return Some(i - 1);
            }
            i -= 1;
        }
        None
    }

    /// The first worktree other than `from`, as a copy target.
    pub fn next_copy_target_idx(&self, from: usize) -> (r: Option<usize>)
        ensures
            self.worktrees@.len() == 0 ==> r is None,
            self.worktrees@.len() > 0 && from != 0 ==> r == Some(0usize),
            self.worktrees@.len() > 1 && from == 0 ==> r == Some(1usize),
            self.worktrees@.len() == 1 && from == 0 ==> r is None,
    {
        if self.worktrees.len() == 0 {
            None
        } else if from != 0 {
            Some(0)
        } else if self.worktrees.len() > 1 {
            Some(1)
        } else {
            None
        }
    }

    /// The item of the first recorded row equal to `row`.
    pub fn row_to_item(&self, row: u16) -> (r: Option<usize>)
        ensures
            r matches Some(idx) ==> exists|k: int|
                0 <= k < self.screen.item_rows@.len() && self.screen.item_rows@[k].0 == row
                    && self.screen.item_rows@[k].1 == idx && forall|m: int|
                    0 <= m < k ==> self.screen.item_rows@[m].0 != row,
            r is None ==> forall|k: int| 0 <= k < self.screen.item_rows@.len() ==> self.screen.item_rows@[k].0 != row,
    {
        let mut k: usize = 0;
        while k < self.screen.item_rows.len()
            invariant
                k <= self.screen.item_rows@.len(),
                forall|m: int| 0 <= m < k ==> self.screen.item_rows@[m].0 != row,
            decreases self.screen.item_rows@.len() - k,
        {
            if self.screen.item_rows[k].0 == row {
                return Some(self.screen.item_rows[k].1);
            }
            k += 1;
        }
        None
    }

    /// The worktree under the list selection, if the selection is on a worktree.
    pub fn selected_worktree_idx(&self) -> (r: Option<usize>)
        ensures
            r matches Some(i) ==> self.selected_index >= COMMAND_COUNT && i == self.selected_index
                - COMMAND_COUNT && i < self.worktrees@.len(),
            r is None ==> self.selected_index < COMMAND_COUNT || self.selected_index - COMMAND_COUNT
                >= self.worktrees@.len(),
            opt_index(r) == selected_wt(*self),
    {
        if self.selected_index >= COMMAND_COUNT && self.selected_index - COMMAND_COUNT
            < self.worktrees.len() {
            Some(self.selected_index - COMMAND_COUNT)
        } else {
            None
        }
    }

    /// The first default-branch worktree.
    pub fn default_worktree_idx(&self) -> (r: Option<usize>)
        ensures
            r matches Some(i) ==> i < self.worktrees@.len() && self.worktrees@[i as int].is_main
                && forall|j: int| 0 <= j < i ==> !self.worktrees@[j].is_main,
            r is None ==> forall|j: int| 0 <= j < self.worktrees@.len() ==> !self.worktrees@[j].is_main,
            opt_index(r) == first_main(self.worktrees@),
    {
        let mut i: usize = 0;
        while i < self.worktrees.len()
            invariant
                i <= self.worktrees@.len(),
                forall|j: int| 0 <= j < i ==> !self.worktrees@[j].is_main,
            decreases self.worktrees@.len() - i,
        {
            if self.worktrees[i].is_main {
                proof {
                    lemma_first_where(self.worktrees@, |w: Worktree| w.is_main, Some(i));
                }
                return Some(i);
            }
            i += 1;
        }
        proof {
            lemma_first_where(self.worktrees@, |w: Worktree| w.is_main, None);
        }
        None
    }

    /// The first worktree that the shell stands in.
    pub fn current_worktree_idx(&self) -> (r: Option<usize>)
        ensures
            r matches Some(i) ==> i < self.worktrees@.len() && self.worktrees@[i as int].is_current
                && forall|j: int| 0 <= j < i ==> !self.worktrees@[j].is_current,
            r is None ==> forall|j: int|
                0 <= j < self.worktrees@.len() ==> !self.worktrees@[j].is_current,
            opt_index(r) == first_current(self.worktrees@),
    {
        let mut i: usize = 0;
        while i < self.worktrees.len()
            invariant
                i <= self.worktrees@.len(),
                forall|j: int| 0 <= j < i ==> !self.worktrees@[j].is_current,
            decreases self.worktrees@.len() - i,
        {
            if self.worktrees[i].is_current {
                proof {
                    lemma_first_where(self.worktrees@, |w: Worktree| w.is_current, Some(i));
                }
                return Some(i);
            }
            i += 1;
        }
        proof {
            lemma_first_where(self.worktrees@, |w: Worktree| w.is_current, None);
        }
        None
    }


    // ───────────── text input editing ─────────────

    /// Inserts `c` at the cursor and moves the cursor past it.
    pub fn input_char(&mut self, c: char)
        requires
            old(self).input_cursor < usize::MAX,
        ensures
            final(self).input_buffer@ == insert_at(old(self).input_buffer@, old(self).cpos(), seq![c]),
            final(self).input_cursor == old(self).input_cursor + 1,
            old(self).same_but_input(&*final(self)),
    {
        insert_char(&mut self.input_buffer, &mut self.input_cursor, c);
    }

    /// Inserts `s` at the cursor and moves the cursor past it.
    pub fn input_str(&mut self, s: &str)
        requires
            old(self).input_cursor + s@.len() <= usize::MAX,
        ensures
            final(self).input_buffer@ == insert_at(old(self).input_buffer@, old(self).cpos(), s@),
            final(self).input_cursor == old(self).input_cursor + s@.len(),
            old(self).same_but_input(&*final(self)),
    {
        insert_text(&mut self.input_buffer, &mut self.input_cursor, s);
    }

    /// Removes the character before the cursor.
    pub fn input_backspace(&mut self)
        requires
            old(self).input_ok(),
        ensures
            final(self).input_buffer@ == after_backspace(
                old(self).input_buffer@,
                old(self).input_cursor as int,
            ),
            final(self).input_cursor == if old(self).input_cursor > 0 {
                old(self).input_cursor - 1
            } else {
                0
            },
            old(self).same_but_input(&*final(self)),
    {
        backspace(&mut self.input_buffer, &mut self.input_cursor);
    }

    /// Removes the character under the cursor.
    pub fn input_delete(&mut self)
        ensures
            old(self).input_cursor < old(self).input_buffer@.len() ==> final(self).input_buffer@
                == remove_range(
                old(self).input_buffer@,
                old(self).input_cursor as int,
                old(self).input_cursor + 1,
            ),
            old(self).input_cursor >= old(self).input_buffer@.len() ==> final(self).input_buffer@
                == old(self).input_buffer@,
            final(self).input_cursor == old(self).input_cursor,
            old(self).same_but_input(&*final(self)),
    {
        delete_under(&mut self.input_buffer, self.input_cursor);
    }

    /// Moves the cursor one character left.
    pub fn input_left(&mut self)
        ensures
            final(self).input_cursor == if old(self).input_cursor > 0 {
                (old(self).input_cursor - 1) as usize
            } else {
                0
            },
            final(self).input_buffer == old(self).input_buffer,
            old(self).same_but_input(&*final(self)),
    {
        self.input_cursor = step_left(self.input_cursor);
    }

    /// Moves the cursor one character right, stopping at the end.
    pub fn input_right(&mut self)
        requires
            old(self).input_cursor < usize::MAX,
        ensures
            final(self).input_cursor == if old(self).input_cursor + 1 <= old(
                self,
            ).input_buffer@.len() {
                old(self).input_cursor + 1
            } else {
                old(self).input_buffer@.len() as int
            },
            final(self).input_buffer == old(self).input_buffer,
            old(self).same_but_input(&*final(self)),
    {
        self.input_cursor = step_right(&self.input_buffer, self.input_cursor);
    }

    /// Moves the cursor to the start.
    pub fn input_home(&mut self)
        ensures
            final(self).input_cursor == 0,
            final(self).input_buffer == old(self).input_buffer,
            old(self).same_but_input(&*final(self)),
    {
        self.input_cursor = 0;
    }

    /// Moves the cursor to the end.
    pub fn input_end(&mut self)
        ensures
            final(self).input_cursor == old(self).input_buffer@.len(),
            final(self).input_buffer == old(self).input_buffer,
            old(self).same_but_input(&*final(self)),
    {
        self.input_cursor = end_of(&self.input_buffer);
    }

    /// Moves the cursor to the start of the previous word.
    pub fn input_left_word(&mut self)
        ensures
            final(self).input_cursor == word_left(old(self).input_buffer@, old(self).cpos()),
            final(self).input_buffer == old(self).input_buffer,
            old(self).same_but_input(&*final(self)),
    {
        self.input_cursor = word_left_of(&self.input_buffer, self.input_cursor);
    }

    /// Moves the cursor to the end of the next word.
    pub fn input_right_word(&mut self)
        ensures
            final(self).input_cursor == word_right(old(self).input_buffer@, old(self).cpos()),
            final(self).input_buffer == old(self).input_buffer,
            old(self).same_but_input(&*final(self)),
    {
        self.input_cursor = word_right_of(&self.input_buffer, self.input_cursor);
    }

    /// Removes the text from the cursor to the end of the next word.
    pub fn input_delete_next_word(&mut self)
        ensures
            final(self).input_buffer@ == remove_range(
                old(self).input_buffer@,
                old(self).cpos(),
                word_right(old(self).input_buffer@, old(self).cpos()),
            ),
            final(self).input_cursor == old(self).cpos(),
            old(self).same_but_input(&*final(self)),
    {
        delete_word_right(&mut self.input_buffer, &mut self.input_cursor);
    }

    /// Empties the input.
    pub fn clear_input(&mut self)
        ensures
            final(self).input_buffer@.len() == 0,
            final(self).input_cursor == 0,
            old(self).same_but_input(&*final(self)),
    {
        self.input_buffer = String::new();
        self.input_cursor = 0;
    }

    /// Replaces the input with `text`, the cursor at its end.
    pub fn set_input(&mut self, text: String)
        ensures
            final(self).input_buffer == text,
            final(self).input_cursor == text@.len(),
            old(self).same_but_input(&*final(self)),
    {
        self.input_cursor = end_of(&text);
        self.input_buffer = text;
    }

    /// The input before and after the cursor.
    pub fn input_parts(&self) -> (r: (String, String))
        ensures
            r.0@ == self.input_buffer@.take(self.cpos()),
            r.1@ == self.input_buffer@.skip(self.cpos()),
    {
        split_at_cursor(&self.input_buffer, self.input_cursor)
    }

    // ───────────── loading animation ─────────────

    /// Restarts the loading animation.
    pub fn reset_loading_animation(&mut self)
        ensures
            final(self).loading_frame == 0,
            old(self).same_but_loading_frame(&*final(self)),
    {
        self.loading_frame = 0;
    }

    /// Restarts the clone animation (the loading animation).
    pub fn reset_clone_animation(&mut self)
        ensures
            final(self).loading_frame == 0,
            old(self).same_but_loading_frame(&*final(self)),
    {
        self.reset_loading_animation();
    }

    /// Steps the loading animation through its three frames.
    pub fn advance_loading_animation(&mut self)
        requires
            old(self).loading_frame < usize::MAX,
        ensures
            final(self).loading_frame == (old(self).loading_frame + 1) % 3,
            old(self).same_but_loading_frame(&*final(self)),
    {
        self.loading_frame = (self.loading_frame + 1) % 3;
    }

    /// The dots drawn after a loading message.
    pub fn loading_animation_dots(&self) -> (r: &'static str)
        ensures
            self.loading_frame == 0 ==> r@ == ".  "@,
            self.loading_frame == 1 ==> r@ == ".. "@,
            self.loading_frame >= 2 ==> r@ == "..."@,
    {
        match self.loading_frame {
            0 => ".  ",
            1 => ".. ",
            _ => "...",
        }
    }

    /// The dots drawn after the clone message (the loading dots).
    pub fn clone_animation_dots(&self) -> (r: &'static str)
        ensures
            self.loading_frame == 0 ==> r@ == ".  "@,
            self.loading_frame == 1 ==> r@ == ".. "@,
            self.loading_frame >= 2 ==> r@ == "..."@,
    {
        self.loading_animation_dots()
    }

    /// Whether the checkout-remote overlay waits for a fetch or a worktree creation.
    pub fn checkout_remote_is_loading(&self) -> (r: bool)
        ensures
            r == (self.checkout_remote.phase == CheckoutRemotePhase::FetchingRemote
                || self.checkout_remote.phase == CheckoutRemotePhase::CreatingWorktree),
    {
        self.checkout_remote.phase == CheckoutRemotePhase::FetchingRemote
            || self.checkout_remote.phase == CheckoutRemotePhase::CreatingWorktree
    }
}

} // verus!
