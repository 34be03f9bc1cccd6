//! The overlays that pick worktrees: deleting some, and copying secrets between two.
use vstd::prelude::*;

use crate::app::{
    removable, first_current, first_main, first_where, opt_index, App, CopySecretsState,
    DeleteState, NewBranchState,
};
use crate::controller::{
    dec, err_is, finish_existing_effect, finish_new_branch_existing_confirmation, inc_to,
    is_down, is_left_key, is_no_key, is_right_key, is_up, is_yes_key, last_index, or_zero,
};
use crate::text::owned;
use crate::text_input::KeyCode;
use crate::types::{ActiveAction, CopySecretsPhase, Worktree};

verus! {

// ───────────────────────────── delete ─────────────────────────────

/// Strictly ascending: each index at most once.
pub open spec fn ascending(s: Seq<usize>) -> bool {
    forall|i: int, j: int| 0 <= i < j < s.len() ==> s[i] < s[j]
}

/// The first worktree that may be deleted, at `i` or after.
pub open spec fn deletable_from(o: App, i: int) -> Option<int>
    decreases o.worktrees@.len() - i,
{
    if i < 0 || i >= o.worktrees@.len() {
        None
    } else if o.deletable_at(i) {
        Some(i)
    } else {
        deletable_from(o, i + 1)
    }
}

/// The last worktree that may be deleted, before `i`.
pub open spec fn deletable_before(o: App, i: int) -> Option<int>
    decreases i,
{
    if i <= 0 {
        None
    } else if o.deletable_at(i - 1) {
        Some(i - 1)
    } else {
        deletable_before(o, i - 1)
    }
}

/// Where the delete overlay's cursor is: on its index if that may be deleted, else on
/// the first worktree that may.
pub open spec fn delete_cursor(o: App) -> usize {
    if o.deletable_at(o.overlay_index as int) {
        o.overlay_index
    } else {
        or_zero(first_where(o.worktrees@, |w: Worktree| removable(w)))
    }
}

/// The delete cursor.
pub fn delete_cursor_idx(app: &App) -> (r: usize)
    ensures
        r == delete_cursor(*app),
{
    let fallback = match app.first_deletable_worktree_idx() {
        Some(i) => i,
        None => 0,
    };
    if app.is_deletable_worktree_idx(app.overlay_index) {
        app.overlay_index
    } else {
        fallback
    }
}

/// The first deletable worktree at `from` or after.
fn deletable_from_exec(app: &App, from: usize) -> (r: Option<usize>)
    ensures
        opt_index(r) == deletable_from(*app, from as int),
{
    let mut i = from;
    while i < app.worktrees.len()
        invariant
            from <= i,
            deletable_from(*app, from as int) == deletable_from(*app, i as int),
        decreases app.worktrees@.len() - i,
    {
        if app.is_deletable_worktree_idx(i) {
            return Some(i);
        }
        i += 1;
    }
    None
}

/// The last deletable worktree before `before`.
fn deletable_before_exec(app: &App, before: usize) -> (r: Option<usize>)
    ensures
        opt_index(r) == deletable_before(*app, before as int),
{
    let mut i = before;
    while i > 0
        invariant
            i <= before,
            deletable_before(*app, before as int) == deletable_before(*app, i as int),
        decreases i,
    {
        if app.is_deletable_worktree_idx(i - 1) {
            return Some(i - 1);
        }
        i -= 1;
    }
    None
}

/// The checked set once `i` is switched.
pub open spec fn toggled(s: Set<usize>, i: usize) -> Set<usize> {
    if s.contains(i) {
        s.remove(i)
    } else {
        s.insert(i)
    }
}

/// What checking or unchecking worktree `i` does.
pub open spec fn toggle_effect(o: App, n: App, i: usize) -> bool {
    if !o.deletable_at(i as int) {
        n == o
    } else {
        &&& n.delete.checked@.to_set() == toggled(o.delete.checked@.to_set(), i)
        &&& ascending(n.delete.checked@)
        &&& n == (App {
            overlay_index: i,
            delete: DeleteState { checked: n.delete.checked, ..o.delete },
            ..o
        })
    }
}

/// Checks worktree `wt_idx` for deletion, or unchecks it; the cursor moves onto it.
/// Worktrees that may not be deleted are left alone.
pub fn toggle_delete_selection(app: &mut App, wt_idx: usize)
    requires
        ascending(old(app).delete.checked@),
    ensures
        toggle_effect(*old(app), *final(app), wt_idx),
{
    if !app.is_deletable_worktree_idx(wt_idx) {
        return;
    }
    app.overlay_index = wt_idx;
    toggle_in(&mut app.delete.checked, wt_idx);
}

/// Checking a worktree and then unchecking it (or the other way round) leaves the set of
/// checked worktrees as it was.
pub proof fn lemma_toggle_twice(o: App, n: App, m: App, i: usize)
    requires
        toggle_effect(o, n, i),
        toggle_effect(n, m, i),
    ensures
        m.delete.checked@.to_set() == o.delete.checked@.to_set(),
        m.worktrees == o.worktrees,
{
    if o.deletable_at(i as int) {
        assert(n.deletable_at(i as int));
        let s = o.delete.checked@.to_set();
        assert(toggled(toggled(s, i), i) =~= s);
    }
}

/// Removes `x` from an ascending list that holds it, else inserts it in order.
fn toggle_in(v: &mut Vec<usize>, x: usize)
    requires
        ascending(old(v)@),
    ensures
        ascending(final(v)@),
        final(v)@.to_set() == toggled(old(v)@.to_set(), x),
{
    let mut p: usize = 0;
    while p < v.len() && v[p] < x
        invariant
            p <= v@.len(),
            forall|j: int| 0 <= j < p ==> v@[j] < x,
        decreases v@.len() - p,
    {
        p += 1;
    }
    let ghost s = v@;
    if p < v.len() && v[p] == x {
        v.remove(p);
        proof {
            assert forall|y: usize| #[trigger] v@.to_set().contains(y) == toggled(s.to_set(), x).contains(y) by {
                if v@.to_set().contains(y) {
                    let k = choose|k: int| 0 <= k < v@.len() && v@[k] == y;
                    if k < p {
                        assert(s[k] == y);
                    } else {
                        assert(s[k + 1] == y);
                    }
                    assert(s.contains(y));
                }
                if toggled(s.to_set(), x).contains(y) {
                    assert(s.to_set().contains(y) && y != x);
                    let k = choose|k: int| 0 <= k < s.len() && s[k] == y;
                    if k < p {
                        assert(v@[k] == y);
                    } else {
                        assert(k != p);
                        assert(v@[k - 1] == y);
                    }
                    assert(v@.contains(y));
                }
            }
            assert(v@.to_set() =~= toggled(s.to_set(), x));
        }
    } else {
        v.insert(p, x);
        proof {
            assert(!s.contains(x)) by {
                if s.contains(x) {
                    let k = choose|k: int| 0 <= k < s.len() && s[k] == x;
                    if k < p {
                    } else if k > p {
                        assert(s[p as int] < s[k]);
                    }
                }
            }
            assert forall|i: int, j: int| 0 <= i < j < v@.len() implies v@[i] < v@[j] by {
                if j < p {
                } else if i < p && j == p {
                } else if i < p {
                    assert(s[i] < s[j - 1]);
                } else if i == p {
                    assert(v@[j] == s[j - 1]);
                    assert(s[j - 1] >= x);
                } else {
                    assert(s[i - 1] < s[j - 1]);
                }
            }
            assert forall|y: usize| #[trigger] v@.to_set().contains(y) == toggled(s.to_set(), x).contains(y) by {
                if v@.to_set().contains(y) {
                    let k = choose|k: int| 0 <= k < v@.len() && v@[k] == y;
                    if k < p {
                        assert(s[k] == y);
                        assert(s.contains(y));
                    } else if k > p {
                        assert(s[k - 1] == y);
                        assert(s.contains(y));
                    }
                }
                if toggled(s.to_set(), x).contains(y) && y != x {
                    let k = choose|k: int| 0 <= k < s.len() && s[k] == y;
                    if k < p {
                        assert(v@[k] == y);
                    } else {
                        assert(v@[k + 1] == y);
                    }
                    assert(v@.contains(y));
                }
                if y == x {
                    assert(v@[p as int] == x);
                    assert(v@.contains(y));
                }
            }
            assert(v@.to_set() =~= toggled(s.to_set(), x));
        }
    }
}

/// The checked worktrees that may still be deleted, in order.
pub open spec fn checked_deletable(o: App) -> Seq<usize> {
    o.delete.checked@.filter(|i: usize| o.deletable_at(i as int))
}

/// What submitting the selection does: the checked worktrees (or, with none checked,
/// the one under the cursor) are to be confirmed.
pub open spec fn submit_effect(o: App, n: App) -> bool {
    let chosen = checked_deletable(o);
    let targets = if chosen.len() > 0 {
        chosen
    } else if first_where(o.worktrees@, |w: Worktree| removable(w)) is Some {
        seq![delete_cursor(o)]
    } else {
        Seq::empty()
    };
    if targets.len() > 0 {
        n.delete.confirm_targets@ == targets && n == (App {
            overlay_index: targets[0],
            delete: DeleteState {
                confirm_targets: n.delete.confirm_targets,
                confirm_yes: false,
                confirming: true,
                ..o.delete
            },
            ..o
        })
    } else {
        n == o
    }
}

/// The checked worktrees that may be deleted.
fn checked_deletable_exec(app: &App) -> (r: Vec<usize>)
    ensures
        r@ == checked_deletable(*app),
{
    let mut out: Vec<usize> = Vec::new();
    let mut k: usize = 0;
    let ghost c = app.delete.checked@;
    while k < app.delete.checked.len()
        invariant
            k <= c.len(),
            c == app.delete.checked@,
            out@ == c.take(k as int).filter(|i: usize| app.deletable_at(i as int)),
        decreases c.len() - k,
    {
        let i = app.delete.checked[k];
        let keep = app.is_deletable_worktree_idx(i);
        if keep {
            out.push(i);
        }
        proof {
            reveal_with_fuel(Seq::<_>::filter, 1);
            let t = c.take(k + 1);
            assert(t.drop_last() == c.take(k as int));
            assert(t.last() == i);
        }
        k += 1;
    }
    assert(c.take(c.len() as int) == c);
    out
}

/// Asks to confirm deleting the checked worktrees, or the one under the cursor.
pub fn submit_delete_selection(app: &mut App)
    ensures
        submit_effect(*old(app), *final(app)),
{
    let chosen = checked_deletable_exec(app);
    let any = app.first_deletable_worktree_idx().is_some();
    let cursor = delete_cursor_idx(app);
    let targets = if chosen.len() > 0 {
        chosen
    } else if any {
        let mut t: Vec<usize> = Vec::new();
        t.push(cursor);
        t
    } else {
        Vec::new()
    };
    assert(targets@ == (if checked_deletable(*app).len() > 0 {
        checked_deletable(*app)
    } else if first_where(app.worktrees@, |w: Worktree| removable(w)) is Some {
        seq![delete_cursor(*app)]
    } else {
        Seq::empty()
    }));
    if targets.len() > 0 {
        app.overlay_index = targets[0];
        app.delete.confirm_targets = targets;
        app.delete.confirm_yes = false;
        app.delete.confirming = true;
    }
}

/// Whether the worktrees to delete include the one the shell stands in.
pub open spec fn targets_include_current(o: App) -> bool {
    exists|k: int|
        0 <= k < o.delete.confirm_targets@.len() && #[trigger] o.delete.confirm_targets@[k]
            < o.worktrees@.len() && o.worktrees@[o.delete.confirm_targets@[k] as int].is_current
}

/// Whether the worktrees to delete include the current one.
pub fn delete_targets_include_current(app: &App) -> (r: bool)
    ensures
        r == targets_include_current(*app),
{
    let mut k: usize = 0;
    while k < app.delete.confirm_targets.len()
        invariant
            k <= app.delete.confirm_targets@.len(),
            forall|j: int|
                0 <= j < k ==> !(#[trigger] app.delete.confirm_targets@[j] < app.worktrees@.len()
                    && app.worktrees@[app.delete.confirm_targets@[j] as int].is_current),
        decreases app.delete.confirm_targets@.len() - k,
    {
        let t = app.delete.confirm_targets[k];
        if t < app.worktrees.len() && app.worktrees[t].is_current {
            return true;
        }
        k += 1;
    }
    false
}

/// The paths of the worktrees to delete that may be deleted, in order.
pub open spec fn target_paths(o: App) -> Seq<String> {
    o.delete.confirm_targets@.filter(|t: usize| o.deletable_at(t as int)).map_values(
        |t: usize| o.worktrees@[t as int].path,
    )
}

fn target_paths_exec(app: &App) -> (r: Vec<String>)
    ensures
        r@ == target_paths(*app),
{
    let ghost c = app.delete.confirm_targets@;
    let ghost f = c.filter(|t: usize| app.deletable_at(t as int));
    let mut out: Vec<String> = Vec::new();
    let mut k: usize = 0;
    while k < app.delete.confirm_targets.len()
        invariant
            k <= c.len(),
            c == app.delete.confirm_targets@,
            out@ == c.take(k as int).filter(|t: usize| app.deletable_at(t as int)).map_values(
                |t: usize| app.worktrees@[t as int].path,
            ),
        decreases c.len() - k,
    {
        let t = app.delete.confirm_targets[k];
        let keep = app.is_deletable_worktree_idx(t);
        proof {
            reveal_with_fuel(Seq::<_>::filter, 1);
            let tk = c.take(k + 1);
            assert(tk.drop_last() == c.take(k as int));
            assert(tk.last() == t);
        }
        if keep {
            let p = app.worktrees[t].path.clone();
            proof {
                let prev = c.take(k as int).filter(|t: usize| app.deletable_at(t as int));
                assert(prev.push(t).map_values(|t: usize| app.worktrees@[t as int].path)
                    =~= prev.map_values(|t: usize| app.worktrees@[t as int].path).push(p));
            }
            out.push(p);
        }
        k += 1;
    }
    assert(c.take(c.len() as int) == c);
    out
}

/// What starting the removal of the confirmed worktrees does. Removing the current
/// worktree sends the shell to the default one afterwards; without a default worktree
/// nothing is removed.
pub open spec fn start_delete_effect(o: App, n: App) -> bool {
    let paths = target_paths(o);
    let closed = DeleteState {
        confirming: false,
        warn_current: false,
        confirm_targets: n.delete.confirm_targets,
        ..o.delete
    };
    let redirect = if targets_include_current(o) {
        match first_main(o.worktrees@) {
            Some(d) => Some(o.worktrees@[d].path),
            None => None,
        }
    } else {
        None
    };
    &&& n.delete.confirm_targets@.len() == 0
    &&& if targets_include_current(o) && redirect is None {
        err_is(n.overlay_error, "No default worktree available to fall back to"@) && n == (App {
            delete: DeleteState { redirect_path: None, ..closed },
            overlay_error: n.overlay_error,
            ..o
        })
    } else if paths.len() > 0 {
        n.delete.pending matches Some(v) && v@ == paths && n == (App {
            delete: DeleteState {
                redirect_path: redirect,
                loading: true,
                pending: n.delete.pending,
                ..closed
            },
            ..o
        })
    } else {
        n == (App { delete: DeleteState { redirect_path: redirect, ..closed }, ..o })
    }
}

/// Starts removing the confirmed worktrees (`delete.pending` holds their paths).
pub fn start_delete_pending(app: &mut App)
    ensures
        start_delete_effect(*old(app), *final(app)),
{
    let includes_current = delete_targets_include_current(app);
    let paths = target_paths_exec(app);
    app.delete.confirming = false;
    app.delete.warn_current = false;
    app.delete.confirm_targets = Vec::new();
    if includes_current {
        let redirect = match app.default_worktree_idx() {
            Some(d) => Some(app.worktrees[d].path.clone()),
            None => None,
        };
        if redirect.is_none() {
            app.delete.redirect_path = None;
            app.overlay_error = Some(owned("No default worktree available to fall back to"));
            return;
        }
        app.delete.redirect_path = redirect;
    } else {
        app.delete.redirect_path = None;
    }
    if paths.len() > 0 {
        app.delete.loading = true;
        app.delete.pending = Some(paths);
    }
}

/// The delete overlay never removes the default worktree: every path it hands out for
/// removal is that of a worktree of the list that is not the default one.
pub proof fn lemma_delete_spares_default(o: App, n: App, v: Vec<String>)
    requires
        start_delete_effect(o, n),
        o.delete.pending is None,
        n.delete.pending == Some(v),
    ensures
        forall|k: int|
            0 <= k < v@.len() ==> exists|i: int|
                0 <= i < o.worktrees@.len() && !o.worktrees@[i].is_main && o.worktrees@[i].path
                    == #[trigger] v@[k],
{
    let f = o.delete.confirm_targets@.filter(|t: usize| o.deletable_at(t as int));
    assert(v@ == target_paths(o));
    assert forall|k: int| 0 <= k < v@.len() implies exists|i: int|
        0 <= i < o.worktrees@.len() && !o.worktrees@[i].is_main && o.worktrees@[i].path
            == #[trigger] v@[k] by {
        let t = f[k];
        o.delete.confirm_targets@.lemma_filter_pred(|t: usize| o.deletable_at(t as int), k);
        assert(o.deletable_at(t as int));
        assert(v@[k] == o.worktrees@[t as int].path);
    }
}

/// What answering the delete confirmation does.
pub open spec fn finish_delete_effect(o: App, n: App, confirmed: bool) -> bool {
    if !confirmed {
        n.delete.confirm_targets@.len() == 0 && n == (App {
            delete: DeleteState {
                confirming: false,
                confirm_targets: n.delete.confirm_targets,
                ..o.delete
            },
            ..o
        })
    } else if targets_include_current(o) {
        n == (App {
            delete: DeleteState {
                confirming: false,
                warn_current: true,
                confirm_yes: false,
                ..o.delete
            },
            ..o
        })
    } else {
        start_delete_effect(o, n)
    }
}

/// Answers the delete confirmation; deleting the current worktree asks once more.
pub fn finish_delete_confirmation(app: &mut App, confirmed: bool)
    ensures
        finish_delete_effect(*old(app), *final(app), confirmed),
{
    if !confirmed {
        app.delete.confirming = false;
        app.delete.confirm_targets = Vec::new();
        return;
    }
    if delete_targets_include_current(app) {
        app.delete.confirming = false;
        app.delete.warn_current = true;
        app.delete.confirm_yes = false;
        return;
    }
    start_delete_pending(app);
}

/// What answering the warning about deleting the current worktree does.
pub open spec fn finish_warning_effect(o: App, n: App, confirmed: bool) -> bool {
    if !confirmed {
        n.delete.confirm_targets@.len() == 0 && n == (App {
            delete: DeleteState {
                warn_current: false,
                confirm_targets: n.delete.confirm_targets,
                ..o.delete
            },
            ..o
        })
    } else {
        start_delete_effect(o, n)
    }
}

/// Answers the warning about deleting the current worktree.
pub fn finish_delete_current_warning(app: &mut App, confirmed: bool)
    ensures
        finish_warning_effect(*old(app), *final(app), confirmed),
{
    if !confirmed {
        app.delete.warn_current = false;
        app.delete.confirm_targets = Vec::new();
        return;
    }
    start_delete_pending(app);
}

/// `o` with the answer highlighted in the delete question.
pub open spec fn with_delete_yes(o: App, yes: bool) -> App {
    App { delete: DeleteState { confirm_yes: yes, ..o.delete }, ..o }
}

/// What a key does while the delete overlay asks a question.
pub open spec fn delete_question_effect(o: App, n: App, code: KeyCode) -> bool {
    if is_left_key(code) {
        n == with_delete_yes(o, true)
    } else if is_right_key(code) {
        n == with_delete_yes(o, false)
    } else if is_yes_key(code) {
        delete_answer_effect(with_delete_yes(o, true), n, true)
    } else if is_no_key(code) {
        delete_answer_effect(with_delete_yes(o, false), n, false)
    } else if code == KeyCode::Enter {
        delete_answer_effect(o, n, o.delete.confirm_yes)
    } else {
        n == o
    }
}

/// What answering the open delete question does.
pub open spec fn delete_answer_effect(o: App, n: App, yes: bool) -> bool {
    if o.delete.warn_current {
        finish_warning_effect(o, n, yes)
    } else {
        finish_delete_effect(o, n, yes)
    }
}

/// What a key does while the delete overlay lists the worktrees.
pub open spec fn delete_browse_effect(o: App, n: App, code: KeyCode) -> bool {
    if code == KeyCode::Esc {
        n.delete.checked@.len() == 0 && n == (App {
            active_action: ActiveAction::Idle,
            delete: DeleteState { checked: n.delete.checked, ..o.delete },
            overlay_error: None,
            ..o
        })
    } else if is_up(code) {
        let c = delete_cursor(o);
        n == (App {
            overlay_index: match deletable_before(o, c as int) {
                Some(i) => i as usize,
                None => c,
            },
            ..o
        })
    } else if is_down(code) {
        let c = delete_cursor(o);
        n == (App {
            overlay_index: match deletable_from(o, c + 1) {
                Some(i) => i as usize,
                None => c,
            },
            ..o
        })
    } else if code == KeyCode::Char(' ') {
        toggle_effect(o, n, delete_cursor(o))
    } else if code == KeyCode::Enter {
        submit_effect(o, n)
    } else {
        n == o
    }
}

/// What a key does in the delete overlay.
pub open spec fn delete_key_effect(o: App, n: App, code: KeyCode) -> bool {
    if o.delete.loading {
        n == o
    } else if o.delete.warn_current || o.delete.confirming {
        delete_question_effect(o, n, code)
    } else {
        delete_browse_effect(o, n, code)
    }
}

/// Answers the open delete question.
fn finish_delete_question(app: &mut App, yes: bool)
    ensures
        delete_answer_effect(*old(app), *final(app), yes),
{
    if app.delete.warn_current {
        finish_delete_current_warning(app, yes);
    } else {
        finish_delete_confirmation(app, yes);
    }
}

/// Keys while the delete overlay asks a question.
fn handle_delete_question_key(app: &mut App, code: KeyCode)
    ensures
        delete_question_effect(*old(app), *final(app), code),
{
    match code {
        KeyCode::Left | KeyCode::Up | KeyCode::Char('h') | KeyCode::Char('k') => {
            app.delete.confirm_yes = true;
        },
        KeyCode::Right | KeyCode::Down | KeyCode::Char('j') | KeyCode::Char('l') => {
            app.delete.confirm_yes = false;
        },
        KeyCode::Char('y') | KeyCode::Char('Y') => {
            app.delete.confirm_yes = true;
            finish_delete_question(app, true);
        },
        KeyCode::Char('n') | KeyCode::Char('N') | KeyCode::Esc => {
            app.delete.confirm_yes = false;
            finish_delete_question(app, false);
        },
        KeyCode::Enter => {
            let yes = app.delete.confirm_yes;
            finish_delete_question(app, yes);
        },
        _ => {},
    }
}

/// Keys while the delete overlay lists the worktrees.
fn handle_delete_browse_key(app: &mut App, code: KeyCode)
    requires
        ascending(old(app).delete.checked@),
    ensures
        delete_browse_effect(*old(app), *final(app), code),
{
    match code {
        KeyCode::Esc => {
            app.active_action = ActiveAction::Idle;
            app.delete.checked = Vec::new();
            app.overlay_error = None;
        },
        KeyCode::Up | KeyCode::Char('k') => {
            let c = delete_cursor_idx(app);
            app.overlay_index = match deletable_before_exec(app, c) {
                Some(i) => i,
                None => c,
            };
        },
        KeyCode::Down | KeyCode::Char('j') => {
            let c = delete_cursor_idx(app);
            let next = if c < app.worktrees.len() {
                deletable_from_exec(app, c + 1)
            } else {
                None
            };
            app.overlay_index = match next {
                Some(i) => i,
                None => c,
            };
        },
        KeyCode::Char(' ') => {
            let c = delete_cursor_idx(app);
            toggle_delete_selection(app, c);
        },
        KeyCode::Enter => submit_delete_selection(app),
        _ => {},
    }
}

/// Keys of the delete overlay: move between worktrees that may be deleted, check them,
/// submit, and answer the confirmation (and the warning about the current worktree).
pub fn handle_delete_key(app: &mut App, code: KeyCode)
    requires
        ascending(old(app).delete.checked@),
    ensures
        delete_key_effect(*old(app), *final(app), code),
{
    if app.delete.loading {
        return;
    }
    if app.delete.warn_current || app.delete.confirming {
        handle_delete_question_key(app, code);
    } else {
        handle_delete_browse_key(app, code);
    }
}

// ───────────────────────────── copy secrets ─────────────────────────────

/// The worktree highlighted in the copy-secrets overlay.
pub open spec fn copy_selection(o: App) -> usize {
    if o.copy_secrets.phase == CopySecretsPhase::SelectSource {
        match o.copy_secrets.source_idx {
            Some(i) => i,
            None => or_zero(first_current(o.worktrees@)),
        }
    } else {
        o.copy_secrets.target_idx
    }
}

/// The highlighted worktree of the copy-secrets overlay.
pub fn copy_selection_idx(app: &App) -> (r: usize)
    ensures
        r == copy_selection(*app),
{
    if app.copy_secrets.phase == CopySecretsPhase::SelectSource {
        match app.copy_secrets.source_idx {
            Some(i) => i,
            None => match app.current_worktree_idx() {
                Some(i) => i,
                None => 0,
            },
        }
    } else {
        app.copy_secrets.target_idx
    }
}

/// `o` with `idx` highlighted in the copy-secrets overlay.
pub open spec fn with_copy_selection(o: App, idx: usize) -> App {
    if o.copy_secrets.phase == CopySecretsPhase::SelectSource {
        App { copy_secrets: CopySecretsState { source_idx: Some(idx), ..o.copy_secrets }, ..o }
    } else {
        App { copy_secrets: CopySecretsState { target_idx: idx, ..o.copy_secrets }, ..o }
    }
}

/// Highlights worktree `idx` in the copy-secrets overlay.
pub fn set_copy_selection_idx(app: &mut App, idx: usize)
    ensures
        *final(app) == with_copy_selection(*old(app), idx),
{
    if app.copy_secrets.phase == CopySecretsPhase::SelectSource {
        app.copy_secrets.source_idx = Some(idx);
    } else {
        app.copy_secrets.target_idx = idx;
    }
}

/// The first worktree other than `from`.
pub open spec fn other_than(o: App, from: usize) -> Option<usize> {
    if o.worktrees@.len() == 0 {
        None
    } else if from != 0 {
        Some(0)
    } else if o.worktrees@.len() > 1 {
        Some(1)
    } else {
        None
    }
}

/// What finishing the copy-secrets choice does: a refusal returns to picking the target.
pub open spec fn finish_copy_effect(o: App, n: App, confirmed: bool) -> bool {
    if !confirmed {
        n == (App {
            copy_secrets: CopySecretsState {
                phase: CopySecretsPhase::SelectTarget,
                ..o.copy_secrets
            },
            ..o
        })
    } else if o.copy_secrets.source_idx is None {
        n == o
    } else {
        n == (App {
            copy_secrets: CopySecretsState { loading: true, pending: true, ..o.copy_secrets },
            ..o
        })
    }
}

/// Starts the copy (`copy_secrets.pending`), or steps back when it is refused.
pub fn finish_copy_secrets(app: &mut App, confirmed: bool)
    ensures
        finish_copy_effect(*old(app), *final(app), confirmed),
{
    if !confirmed {
        app.copy_secrets.phase = CopySecretsPhase::SelectTarget;
        return;
    }
    if app.copy_secrets.source_idx.is_none() {
        return;
    }
    app.copy_secrets.loading = true;
    app.copy_secrets.pending = true;
}

/// What choosing worktree `i` in the copy-secrets overlay does.
pub open spec fn copy_select_effect(o: App, n: App, i: usize) -> bool {
    let ws = o.worktrees@;
    match o.copy_secrets.phase {
        CopySecretsPhase::SelectSource => if i >= ws.len() {
            n == o
        } else if !ws[i as int].has_secrets {
            err_is(n.overlay_error, "this worktree doesn't contain secrets"@) && n == (App {
                overlay_error: n.overlay_error,
                copy_secrets: CopySecretsState { source_idx: Some(i), ..o.copy_secrets },
                ..o
            })
        } else {
            match other_than(o, i) {
                None => err_is(n.overlay_error, "No destination worktree available"@) && n == (App {
                    overlay_error: n.overlay_error,
                    ..o
                }),
                Some(t) => n == (App {
                    overlay_error: None,
                    copy_secrets: CopySecretsState {
                        source_idx: Some(i),
                        target_idx: t,
                        confirm_yes: true,
                        phase: CopySecretsPhase::SelectTarget,
                        ..o.copy_secrets
                    },
                    ..o
                }),
            }
        },
        CopySecretsPhase::SelectTarget => if o.copy_secrets.source_idx == Some(i) || i >= ws.len() {
            n == o
        } else {
            let picked = App {
                copy_secrets: CopySecretsState { target_idx: i, ..o.copy_secrets },
                overlay_error: None,
                ..o
            };
            if ws[i as int].has_secrets {
                n == (App {
                    copy_secrets: CopySecretsState {
                        phase: CopySecretsPhase::ConfirmOverwrite,
                        ..picked.copy_secrets
                    },
                    ..picked
                })
            } else {
                finish_copy_effect(picked, n, true)
            }
        },
        CopySecretsPhase::ConfirmOverwrite => n == o,
    }
}

/// Chooses worktree `wt_idx` as the source (it must hold secrets) or as the target (a
/// target with secrets of its own asks before they are overwritten).
pub fn handle_copy_secrets_select(app: &mut App, wt_idx: usize)
    ensures
        copy_select_effect(*old(app), *final(app), wt_idx),
{
    match app.copy_secrets.phase {
        CopySecretsPhase::SelectSource => {
            if wt_idx >= app.worktrees.len() {
                return;
            }
            if !app.worktrees[wt_idx].has_secrets {
                app.overlay_error = Some(owned("this worktree doesn't contain secrets"));
                app.copy_secrets.source_idx = Some(wt_idx);
                return;
            }
            match app.next_copy_target_idx(wt_idx) {
                None => {
                    app.overlay_error = Some(owned("No destination worktree available"));
                },
                Some(t) => {
                    app.overlay_error = None;
                    app.copy_secrets.source_idx = Some(wt_idx);
                    app.copy_secrets.target_idx = t;
                    app.copy_secrets.confirm_yes = true;
                    app.copy_secrets.phase = CopySecretsPhase::SelectTarget;
                },
            }
        },
        CopySecretsPhase::SelectTarget => {
            if app.copy_secrets.source_idx == Some(wt_idx) || wt_idx >= app.worktrees.len() {
                return;
            }
            app.copy_secrets.target_idx = wt_idx;
            app.overlay_error = None;
            if app.worktrees[wt_idx].has_secrets {
                app.copy_secrets.phase = CopySecretsPhase::ConfirmOverwrite;
            } else {
                finish_copy_secrets(app, true);
            }
        },
        CopySecretsPhase::ConfirmOverwrite => {},
    }
}

/// `o` with the answer highlighted in the overwrite question.
pub open spec fn with_copy_yes(o: App, yes: bool) -> App {
    App { copy_secrets: CopySecretsState { confirm_yes: yes, ..o.copy_secrets }, ..o }
}

/// What a key does on the overwrite question.
pub open spec fn copy_question_effect(o: App, n: App, code: KeyCode) -> bool {
    if code == KeyCode::Left || code == KeyCode::Char('h') {
        n == with_copy_yes(o, true)
    } else if code == KeyCode::Right || code == KeyCode::Char('l') {
        n == with_copy_yes(o, false)
    } else if is_yes_key(code) {
        finish_copy_effect(with_copy_yes(o, true), n, true)
    } else if is_no_key(code) {
        finish_copy_effect(with_copy_yes(o, false), n, false)
    } else if code == KeyCode::Enter {
        finish_copy_effect(o, n, o.copy_secrets.confirm_yes)
    } else {
        n == o
    }
}

/// What a key does while a source or target is picked.
pub open spec fn copy_pick_effect(o: App, n: App, code: KeyCode) -> bool {
    let sel = copy_selection(o);
    if code == KeyCode::Esc {
        if o.copy_secrets.phase == CopySecretsPhase::SelectSource {
            n == (App { active_action: ActiveAction::Idle, overlay_error: None, ..o })
        } else {
            n == (App {
                copy_secrets: CopySecretsState {
                    phase: CopySecretsPhase::SelectSource,
                    source_idx: None,
                    ..o.copy_secrets
                },
                overlay_error: None,
                ..o
            })
        }
    } else if is_up(code) {
        n == with_copy_selection(o, dec(sel))
    } else if is_down(code) {
        n == with_copy_selection(o, inc_to(sel, last_index(o.worktrees@.len())))
    } else if code == KeyCode::Enter {
        copy_select_effect(o, n, sel)
    } else {
        n == o
    }
}

/// What a key does in the copy-secrets overlay.
pub open spec fn copy_key_effect(o: App, n: App, code: KeyCode) -> bool {
    if o.copy_secrets.loading {
        n == o
    } else if o.copy_secrets.phase == CopySecretsPhase::ConfirmOverwrite {
        copy_question_effect(o, n, code)
    } else {
        copy_pick_effect(o, n, code)
    }
}

/// Keys on the overwrite question.
fn handle_copy_question_key(app: &mut App, code: KeyCode)
    ensures
        copy_question_effect(*old(app), *final(app), code),
{
    match code {
        KeyCode::Left | KeyCode::Char('h') => {
            app.copy_secrets.confirm_yes = true;
        },
        KeyCode::Right | KeyCode::Char('l') => {
            app.copy_secrets.confirm_yes = false;
        },
        KeyCode::Char('y') | KeyCode::Char('Y') => {
            app.copy_secrets.confirm_yes = true;
            finish_copy_secrets(app, true);
        },
        KeyCode::Char('n') | KeyCode::Char('N') | KeyCode::Esc => {
            app.copy_secrets.confirm_yes = false;
            finish_copy_secrets(app, false);
        },
        KeyCode::Enter => {
            let yes = app.copy_secrets.confirm_yes;
            finish_copy_secrets(app, yes);
        },
        _ => {},
    }
}

/// Keys while a source or target is picked.
fn handle_copy_pick_key(app: &mut App, code: KeyCode)
    ensures
        copy_pick_effect(*old(app), *final(app), code),
{
    let sel = copy_selection_idx(app);
    match code {
        KeyCode::Esc => {
            if app.copy_secrets.phase == CopySecretsPhase::SelectSource {
                app.active_action = ActiveAction::Idle;
                app.overlay_error = None;
            } else {
                app.copy_secrets.phase = CopySecretsPhase::SelectSource;
                app.copy_secrets.source_idx = None;
                app.overlay_error = None;
            }
        },
        KeyCode::Up | KeyCode::Char('k') => {
            let next = if sel > 0 {
                sel - 1
            } else {
                0
            };
            set_copy_selection_idx(app, next);
        },
        KeyCode::Down | KeyCode::Char('j') => {
            let max = if app.worktrees.len() > 0 {
                app.worktrees.len() - 1
            } else {
                0
            };
            let next = if sel < max {
                sel + 1
            } else {
                max
            };
            set_copy_selection_idx(app, next);
        },
        KeyCode::Enter => handle_copy_secrets_select(app, sel),
        _ => {},
    }
}

/// Keys of the copy-secrets overlay: pick the source, then the target, and answer
/// whether to overwrite the target's secrets.
pub fn handle_copy_secrets_key(app: &mut App, code: KeyCode)
    ensures
        copy_key_effect(*old(app), *final(app), code),
{
    if app.copy_secrets.loading {
        return;
    }
    if app.copy_secrets.phase == CopySecretsPhase::ConfirmOverwrite {
        handle_copy_question_key(app, code);
    } else {
        handle_copy_pick_key(app, code);
    }
}

// ───────────────────────────── confirmation popups ─────────────────────────────

/// `x - y`, stopping at zero.
pub open spec fn sat_sub(x: u16, y: u16) -> u16 {
    if x >= y {
        (x - y) as u16
    } else {
        0
    }
}

fn sat_sub_exec(x: u16, y: u16) -> (r: u16)
    ensures
        r == sat_sub(x, y),
{
    if x >= y {
        x - y
    } else {
        0
    }
}

/// Where a click lands inside a centred popup of the given size: the column and row
/// relative to its top-left corner.
pub open spec fn popup_offset(o: App, width: u16, height: u16, column: u16, row: u16) -> (u16, u16) {
    (
        sat_sub(column, (sat_sub(o.screen.frame_width, width) / 2) as u16),
        sat_sub(row, (sat_sub(o.screen.frame_height, height) / 2) as u16),
    )
}

fn popup_offset_exec(app: &App, width: u16, height: u16, column: u16, row: u16) -> (r: (u16, u16))
    ensures
        r == popup_offset(*app, width, height, column, row),
{
    let x = sat_sub_exec(app.screen.frame_width, width) / 2;
    let y = sat_sub_exec(app.screen.frame_height, height) / 2;
    (sat_sub_exec(column, x), sat_sub_exec(row, y))
}

/// What a click does on the overwrite question: on its button row, the left half
/// answers yes and the right half no.
pub open spec fn copy_click_effect(o: App, n: App, column: u16, row: u16) -> bool {
    let (x, y) = popup_offset(o, 60, 8, column, row);
    if 4 <= y <= 5 {
        if x <= 30 {
            finish_copy_effect(with_copy_yes(o, true), n, true)
        } else {
            finish_copy_effect(with_copy_yes(o, false), n, false)
        }
    } else {
        n == o
    }
}

/// A click on the copy-secrets overwrite question.
pub fn handle_copy_secrets_confirm_click(app: &mut App, column: u16, row: u16)
    ensures
        copy_click_effect(*old(app), *final(app), column, row),
{
    let (x, y) = popup_offset_exec(app, 60, 8, column, row);
    if 4 <= y && y <= 5 {
        if x <= 30 {
            app.copy_secrets.confirm_yes = true;
            finish_copy_secrets(app, true);
        } else {
            app.copy_secrets.confirm_yes = false;
            finish_copy_secrets(app, false);
        }
    }
}

/// What a click does on the delete question (or the warning about the current worktree).
pub open spec fn delete_click_effect(o: App, n: App, column: u16, row: u16) -> bool {
    let height: u16 = if o.delete.warn_current {
        11
    } else {
        10
    };
    let (x, y) = popup_offset(o, 60, height, column, row);
    if 5 <= y <= 6 {
        let yes = x <= 30;
        let a = with_delete_yes(o, yes);
        if o.delete.warn_current {
            finish_warning_effect(a, n, yes)
        } else {
            finish_delete_effect(a, n, yes)
        }
    } else {
        n == o
    }
}

/// A click on the delete question.
pub fn handle_delete_confirm_click(app: &mut App, column: u16, row: u16)
    ensures
        delete_click_effect(*old(app), *final(app), column, row),
{
    let height: u16 = if app.delete.warn_current {
        11
    } else {
        10
    };
    let (x, y) = popup_offset_exec(app, 60, height, column, row);
    if 5 <= y && y <= 6 {
        let yes = x <= 30;
        app.delete.confirm_yes = yes;
        finish_delete_question(app, yes);
    }
}

/// What a click does on the "use the existing branch?" question.
pub open spec fn new_branch_click_effect(o: App, n: App, column: u16, row: u16) -> bool {
    let (x, y) = popup_offset(o, 48, 10, column, row);
    if 5 <= y <= 6 {
        let yes = x <= 24;
        finish_existing_effect(
            App { new_branch: NewBranchState { confirm_yes: yes, ..o.new_branch }, ..o },
            n,
            yes,
        )
    } else {
        n == o
    }
}

/// A click on the "use the existing branch?" question.
pub fn handle_new_branch_confirm_click(app: &mut App, column: u16, row: u16)
    ensures
        new_branch_click_effect(*old(app), *final(app), column, row),
{
    let (x, y) = popup_offset_exec(app, 48, 10, column, row);
    if 5 <= y && y <= 6 {
        let yes = x <= 24;
        app.new_branch.confirm_yes = yes;
        finish_new_branch_existing_confirmation(app, yes);
    }
}

} // verus!
