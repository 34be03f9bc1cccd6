//! Checking a pull request out as a worktree: the steps between the `gh` and `git`
//! commands, and the progress lines they report. The caller runs each command and
//! hands its outcome to the next step.
use vstd::prelude::*;

use crate::git::{join_path, worktree_path_for_name};
use crate::text::{copy_string, push_str, string_push, trim, trim_seq};

verus! {

/// The character of a decimal digit.
pub open spec fn digit_char(d: nat) -> char {
    if d == 0 {
        '0'
    } else if d == 1 {
        '1'
    } else if d == 2 {
        '2'
    } else if d == 3 {
        '3'
    } else if d == 4 {
        '4'
    } else if d == 5 {
        '5'
    } else if d == 6 {
        '6'
    } else if d == 7 {
        '7'
    } else if d == 8 {
        '8'
    } else {
        '9'
    }
}

/// The decimal digits of `n`, without leading zeros (`0` for zero).
pub open spec fn decimal_chars(n: nat) -> Seq<char>
    decreases n,
{
    if n < 10 {
        seq![digit_char(n)]
    } else {
        decimal_chars(n / 10).push(digit_char(n % 10))
    }
}

fn digit(d: u32) -> (c: char)
    requires
        d < 10,
    ensures
        c == digit_char(d as nat),
{
    if d == 0 {
        '0'
    } else if d == 1 {
        '1'
    } else if d == 2 {
        '2'
    } else if d == 3 {
        '3'
    } else if d == 4 {
        '4'
    } else if d == 5 {
        '5'
    } else if d == 6 {
        '6'
    } else if d == 7 {
        '7'
    } else if d == 8 {
        '8'
    } else {
        '9'
    }
}

/// Appends the decimal digits of `n` to `s`.
pub fn push_decimal(s: &mut String, n: u32)
    ensures
        final(s)@ == old(s)@ + decimal_chars(n as nat),
    decreases n,
{
    if n >= 10 {
        push_decimal(s, n / 10);
    }
    string_push(s, digit(n % 10));
}

/// `#` and the number of a pull request, as `gh` takes it.
pub open spec fn pr_ref(pr_number: nat) -> Seq<char> {
    seq!['#'] + decimal_chars(pr_number)
}

/// The head branch of a pull request, from what `gh pr view` answered: its trimmed
/// error output when it failed, a message when it named no branch.
pub open spec fn head_branch_of(pr_number: nat, success: bool, stdout: Seq<char>, stderr: Seq<char>) -> Result<
    Seq<char>,
    Seq<char>,
> {
    if !success {
        Err(trim_seq(stderr))
    } else if trim_seq(stdout).len() == 0 {
        Err("Could not resolve head branch for PR #"@ + decimal_chars(pr_number))
    } else {
        Ok(trim_seq(stdout))
    }
}

/// How the fetch of the head branch went.
pub enum FetchOutcome {
    /// git ran and succeeded.
    Done,
    /// git ran and failed, with this error output.
    Failed(String),
    /// git could not be run, for this reason.
    NotRun(String),
}

/// The checkout of one pull request, step by step.
pub struct PrCheckout {
    pub pr_number: u32,
    pub messages: Vec<String>,
    pub branch: String,
    pub dest: String,
}

/// `#` and the number of a pull request.
pub fn pr_ref_string(pr_number: u32) -> (r: String)
    ensures
        r@ == pr_ref(pr_number as nat),
{
    let mut r = String::new();
    string_push(&mut r, '#');
    push_decimal(&mut r, pr_number);
    r
}

impl PrCheckout {
    /// Starts a checkout: announces `gh pr view #N`, which the caller runs next.
    pub fn start(pr_number: u32) -> (r: PrCheckout)
        ensures
            r.pr_number == pr_number,
            r.messages@.len() == 1,
            r.messages@[0]@ == "$ gh pr view "@ + pr_ref(pr_number as nat),
            r.branch@.len() == 0,
            r.dest@.len() == 0,
    {
        let mut line = String::new();
        push_str(&mut line, "$ gh pr view ");
        let rf = pr_ref_string(pr_number);
        push_str(&mut line, rf.as_str());
        let mut messages = Vec::new();
        messages.push(line);
        PrCheckout { pr_number, messages, branch: String::new(), dest: String::new() }
    }

    /// Takes what `gh pr view` answered. On success it records the head branch and
    /// announces `git fetch origin B:B`, which the caller runs next.
    pub fn head_branch(&mut self, success: bool, stdout: &str, stderr: &str) -> (r: Result<
        (),
        String,
    >)
        ensures
            final(self).pr_number == old(self).pr_number,
            final(self).dest == old(self).dest,
            match (r, head_branch_of(old(self).pr_number as nat, success, stdout@, stderr@)) {
                (Ok(()), Ok(b)) => {
                    &&& final(self).branch@ == b
                    &&& final(self).messages@.len() == old(self).messages@.len() + 2
                    &&& final(self).messages@.take(old(self).messages@.len() as int) == old(
                        self,
                    ).messages@
                    &&& final(self).messages@[old(self).messages@.len() as int]@
                        == "✓ Resolved head branch: "@ + b
                    &&& final(self).messages@[old(self).messages@.len() + 1int]@ == "$ git fetch origin "@
                        + b + ":"@ + b
                },
                (Err(e), Err(m)) => e@ == m && final(self).messages == old(self).messages
                    && final(self).branch == old(self).branch,
                _ => false,
            },
    {
        if !success {
            return Err(trim(stderr));
        }
        let branch = trim(stdout);
        if branch.as_str().is_empty() {
            let mut m = String::new();
            push_str(&mut m, "Could not resolve head branch for PR #");
            push_decimal(&mut m, self.pr_number);
            return Err(m);
        }
        let mut l1 = String::new();
        push_str(&mut l1, "✓ Resolved head branch: ");
        push_str(&mut l1, branch.as_str());
        let mut l2 = String::new();
        push_str(&mut l2, "$ git fetch origin ");
        push_str(&mut l2, branch.as_str());
        push_str(&mut l2, ":");
        push_str(&mut l2, branch.as_str());
        let ghost before = self.messages@;
        self.messages.push(l1);
        self.messages.push(l2);
        assert(self.messages@.take(before.len() as int) =~= before);
        self.branch = branch;
        Ok(())
    }

    /// Takes how the fetch went (a failure only adds a note), places the worktree in
    /// `base_dir` under the branch name, and announces `git worktree add`, which the
    /// caller runs next; returns the destination.
    pub fn fetched(&mut self, outcome: FetchOutcome, base_dir: &str) -> (dest: String)
        ensures
            dest@ == join_path(base_dir@, old(self).branch@),
            final(self).dest@ == dest@,
            final(self).pr_number == old(self).pr_number,
            final(self).branch == old(self).branch,
            final(self).messages@.take(old(self).messages@.len() as int) == old(self).messages@,
            final(self).messages@.last()@ == "$ git worktree add "@ + dest@ + " "@ + old(
                self,
            ).branch@,
            final(self).messages@.len() == old(self).messages@.len() + match outcome {
                FetchOutcome::Done => 1int,
                _ => 2int,
            },
            outcome matches FetchOutcome::Failed(e) ==> final(self).messages@[old(
                self,
            ).messages@.len() as int]@ == "  (fetch note: "@ + trim_seq(e@) + ")"@,
            outcome matches FetchOutcome::NotRun(e) ==> final(self).messages@[old(
                self,
            ).messages@.len() as int]@ == "  (fetch warn: "@ + e@ + ")"@,
    {
        let ghost before = self.messages@;
        match outcome {
            FetchOutcome::Done => {},
            FetchOutcome::Failed(e) => {
                let mut l = String::new();
                push_str(&mut l, "  (fetch note: ");
                let t = trim(e.as_str());
                push_str(&mut l, t.as_str());
                push_str(&mut l, ")");
                self.messages.push(l);
            },
            FetchOutcome::NotRun(e) => {
                let mut l = String::new();
                push_str(&mut l, "  (fetch warn: ");
                push_str(&mut l, e.as_str());
                push_str(&mut l, ")");
                self.messages.push(l);
            },
        }
        let dest = worktree_path_for_name(base_dir, self.branch.as_str());
        let mut l = String::new();
        push_str(&mut l, "$ git worktree add ");
        push_str(&mut l, dest.as_str());
        push_str(&mut l, " ");
        push_str(&mut l, self.branch.as_str());
        self.messages.push(l);
        assert(self.messages@.take(before.len() as int) =~= before);
        self.dest = copy_string(&dest);
        dest
    }

    /// Takes how `git worktree add` went and ends the checkout with its progress lines
    /// and the destination; a failure of the command is reported in the lines only.
    pub fn finish(self, success: bool, stderr: &str) -> (r: (Vec<String>, String))
        ensures
            r.1 == self.dest,
            r.0@.len() == self.messages@.len() + 1,
            r.0@.take(self.messages@.len() as int) == self.messages@,
            r.0@.last()@ == if success {
                "✓ PR #"@ + decimal_chars(self.pr_number as nat) + " checked out at "@
                    + self.dest@
            } else {
                "✗ "@ + trim_seq(stderr@)
            },
    {
        let mut l = String::new();
        if success {
            push_str(&mut l, "✓ PR #");
            push_decimal(&mut l, self.pr_number);
            push_str(&mut l, " checked out at ");
            push_str(&mut l, self.dest.as_str());
        } else {
            push_str(&mut l, "✗ ");
            let t = trim(stderr);
            push_str(&mut l, t.as_str());
        }
        let mut messages = self.messages;
        let ghost before = messages@;
        messages.push(l);
        assert(messages@.take(before.len() as int) =~= before);
        (messages, self.dest)
    }
}

} // verus!
