//! The command line of `wt`: which command runs, with which arguments.
use vstd::prelude::*;

use crate::text::{
    copy_string, has_prefix, is_blank, parse_u32, parsed_u64, push_str, starts_with, str_eq,
    strip_prefix, trim, trim_seq, trim_start_char, trim_start_char_seq, views,
};

verus! {

/// Where `wt b` starts the new branch.
#[derive(Debug, Clone, PartialEq, Eq)]
pub enum BranchBase {
    /// The current branch inside a worktree, else the default branch.
    Auto,
    Current,
    Default,
    Explicit(String),
}

/// A command line, parsed.
#[derive(Debug, Clone, PartialEq, Eq)]
pub enum ParsedArgs {
    Tui { mark_tree: bool },
    Version,
    Update,
    Help,
    InstallShell { shell: Option<String> },
    Clone { repo_source: String, dest: Option<String> },
    Project { name: Option<String> },
    CheckoutPr { pr_number: u32 },
    Checkout { branch_name: Option<String> },
    Branch { branch_name: String, base: BranchBase },
    Delete { branch_name: Option<String>, yes: bool },
}

/// A command line that `wt` refuses, with the message it prints.
#[derive(Debug, Clone, PartialEq, Eq)]
pub struct CliError {
    pub message: String,
}

impl CliError {
    /// The message shown to the user.
    pub fn to_string(&self) -> (r: String)
        ensures
            r@ == self.message@,
    {
        copy_string(&self.message)
    }
}

// ───────────────────────────── the meaning of a command line ─────────────────────────────

/// `BranchBase` over character sequences.
pub enum BaseModel {
    Auto,
    Current,
    Default,
    Explicit(Seq<char>),
}

/// `ParsedArgs` over character sequences.
pub enum ArgsModel {
    Tui { mark_tree: bool },
    Version,
    Update,
    Help,
    InstallShell { shell: Option<Seq<char>> },
    Clone { repo_source: Seq<char>, dest: Option<Seq<char>> },
    Project { name: Option<Seq<char>> },
    CheckoutPr { pr_number: u32 },
    Checkout { branch_name: Option<Seq<char>> },
    Branch { branch_name: Seq<char>, base: BaseModel },
    Delete { branch_name: Option<Seq<char>>, yes: bool },
}

/// The characters of an optional string.
pub open spec fn opt_chars(o: Option<String>) -> Option<Seq<char>> {
    match o {
        Some(s) => Some(s@),
        None => None,
    }
}

impl BranchBase {
    pub open spec fn model(&self) -> BaseModel {
        match self {
            BranchBase::Auto => BaseModel::Auto,
            BranchBase::Current => BaseModel::Current,
            BranchBase::Default => BaseModel::Default,
            BranchBase::Explicit(b) => BaseModel::Explicit(b@),
        }
    }
}

impl ParsedArgs {
    pub open spec fn model(&self) -> ArgsModel {
        match self {
            ParsedArgs::Tui { mark_tree } => ArgsModel::Tui { mark_tree: *mark_tree },
            ParsedArgs::Version => ArgsModel::Version,
            ParsedArgs::Update => ArgsModel::Update,
            ParsedArgs::Help => ArgsModel::Help,
            ParsedArgs::InstallShell { shell } => ArgsModel::InstallShell { shell: opt_chars(*shell) },
            ParsedArgs::Clone { repo_source, dest } => ArgsModel::Clone {
                repo_source: repo_source@,
                dest: opt_chars(*dest),
            },
            ParsedArgs::Project { name } => ArgsModel::Project { name: opt_chars(*name) },
            ParsedArgs::CheckoutPr { pr_number } => ArgsModel::CheckoutPr { pr_number: *pr_number },
            ParsedArgs::Checkout { branch_name } => ArgsModel::Checkout {
                branch_name: opt_chars(*branch_name),
            },
            ParsedArgs::Branch { branch_name, base } => ArgsModel::Branch {
                branch_name: branch_name@,
                base: base.model(),
            },
            ParsedArgs::Delete { branch_name, yes } => ArgsModel::Delete {
                branch_name: opt_chars(*branch_name),
                yes: *yes,
            },
        }
    }
}

/// A parse result over character sequences.
pub open spec fn result_model(r: Result<ParsedArgs, CliError>) -> Result<ArgsModel, Seq<char>> {
    match r {
        Ok(a) => Ok(a.model()),
        Err(e) => Err(e.message@),
    }
}

pub open spec fn branch_usage() -> Seq<char> {
    "Usage: wt b <branch> [--from-default|--from-current|--base <branch>]"@
}

pub open spec fn base_needs_value() -> Seq<char> {
    "`--base` requires a branch name."@
}

/// The refusal of a second base selector after `flag`.
pub open spec fn conflict_message(flag: Seq<char>) -> Seq<char> {
    "Conflicting base options; cannot combine `"@ + flag + "` with another base selector."@
}

/// The value of `wt pr <arg>`.
pub open spec fn pr_model(args: Seq<Seq<char>>) -> Result<ArgsModel, Seq<char>> {
    if args.len() != 1 {
        Err("Usage: wt pr <number>"@)
    } else {
        let raw = trim_seq(args[0]);
        let number = trim_start_char_seq(raw, '#');
        if number.len() == 0 {
            Err("PR number cannot be empty."@)
        } else {
            match parsed_u64(number) {
                Some(n) => if n > u32::MAX {
                    Err("Invalid PR number '"@ + raw + "'."@)
                } else if n == 0 {
                    Err("PR number must be greater than zero."@)
                } else {
                    Ok(ArgsModel::CheckoutPr { pr_number: n as u32 })
                },
                None => Err("Invalid PR number '"@ + raw + "'."@),
            }
        }
    }
}

/// The value of `wt b` from argument `i` on, with the name and base seen so far.
pub open spec fn branch_scan(
    args: Seq<Seq<char>>,
    i: int,
    name: Option<Seq<char>>,
    base: BaseModel,
) -> Result<ArgsModel, Seq<char>>
    decreases args.len() - i,
{
    if i < 0 || i >= args.len() {
        match name {
            Some(n) => Ok(ArgsModel::Branch { branch_name: n, base }),
            None => Err(branch_usage()),
        }
    } else {
        let arg = args[i];
        if arg == "--from-default"@ || arg == "-d"@ {
            if !(base is Auto) {
                Err(conflict_message("--from-default"@))
            } else {
                branch_scan(args, i + 1, name, BaseModel::Default)
            }
        } else if arg == "--from-current"@ {
            if !(base is Auto) {
                Err(conflict_message("--from-current"@))
            } else {
                branch_scan(args, i + 1, name, BaseModel::Current)
            }
        } else if has_prefix(arg, "--base="@) {
            let value = arg.skip("--base="@.len() as int);
            if !(base is Auto) {
                Err(conflict_message("--base"@))
            } else if trim_seq(value).len() == 0 {
                Err(base_needs_value())
            } else {
                branch_scan(args, i + 1, name, BaseModel::Explicit(value))
            }
        } else if arg == "--base"@ {
            if !(base is Auto) {
                Err(conflict_message("--base"@))
            } else if i + 1 >= args.len() || trim_seq(args[i + 1]).len() == 0 {
                Err(base_needs_value())
            } else {
                branch_scan(args, i + 2, name, BaseModel::Explicit(args[i + 1]))
            }
        } else if has_prefix(arg, "-"@) {
            Err("Unknown option '"@ + arg + "' for `wt branch`."@)
        } else if name is Some {
            Err(branch_usage())
        } else {
            branch_scan(args, i + 1, Some(arg), base)
        }
    }
}

/// The value of `wt d` from argument `i` on, with the name and flag seen so far.
pub open spec fn delete_scan(args: Seq<Seq<char>>, i: int, name: Option<Seq<char>>, yes: bool) -> Result<
    ArgsModel,
    Seq<char>,
>
    decreases args.len() - i,
{
    if i < 0 || i >= args.len() {
        Ok(ArgsModel::Delete { branch_name: name, yes })
    } else {
        let arg = args[i];
        if arg == "--yes"@ {
            delete_scan(args, i + 1, name, true)
        } else if has_prefix(arg, "-"@) {
            Err("Unknown option '"@ + arg + "' for `wt delete`."@)
        } else if name is Some {
            Err("Usage: wt d [branch] [--yes]"@)
        } else {
            delete_scan(args, i + 1, Some(arg), yes)
        }
    }
}

/// A command that takes at most one optional argument.
pub open spec fn optional_arg(rest: Seq<Seq<char>>) -> Option<Option<Seq<char>>> {
    if rest.len() == 0 {
        Some(None)
    } else if rest.len() == 1 {
        Some(Some(rest[0]))
    } else {
        None
    }
}

/// What a whole command line means.
pub open spec fn parse_model(args: Seq<Seq<char>>) -> Result<ArgsModel, Seq<char>> {
    if args.len() == 0 {
        Ok(ArgsModel::Tui { mark_tree: false })
    } else if args.len() == 1 && (args[0] == "--version"@ || args[0] == "-V"@) {
        Ok(ArgsModel::Version)
    } else if args.len() == 1 && args[0] == "--update"@ {
        Ok(ArgsModel::Update)
    } else if args.len() == 1 && args[0] == "--mark-tree"@ {
        Ok(ArgsModel::Tui { mark_tree: true })
    } else {
        let cmd = args[0];
        let rest = args.skip(1);
        if cmd == "--help"@ || cmd == "-h"@ || cmd == "help"@ {
            Ok(ArgsModel::Help)
        } else if cmd == "pr"@ || cmd == "checkout-pr"@ {
            pr_model(rest)
        } else if cmd == "b"@ || cmd == "branch"@ {
            branch_scan(rest, 0, None, BaseModel::Auto)
        } else if cmd == "d"@ || cmd == "delete"@ {
            delete_scan(rest, 0, None, false)
        } else if cmd == "clone"@ {
            if rest.len() == 1 {
                Ok(ArgsModel::Clone { repo_source: rest[0], dest: None })
            } else if rest.len() == 2 {
                Ok(ArgsModel::Clone { repo_source: rest[0], dest: Some(rest[1]) })
            } else {
                Err("Usage: wt clone <repo> [dest]"@)
            }
        } else if cmd == "p"@ || cmd == "project"@ {
            match optional_arg(rest) {
                Some(name) => Ok(ArgsModel::Project { name }),
                None => Err("Usage: wt p [project]"@),
            }
        } else if cmd == "gco"@ || cmd == "checkout"@ {
            match optional_arg(rest) {
                Some(branch_name) => Ok(ArgsModel::Checkout { branch_name }),
                None => Err("Usage: wt gco [branch]"@),
            }
        } else if cmd == "--install-shell"@ {
            match optional_arg(rest) {
                Some(shell) => Ok(ArgsModel::InstallShell { shell }),
                None => Err("Usage: wt --install-shell [zsh|bash]"@),
            }
        } else {
            Err("Unknown command '"@ + cmd + "'. Run `wt --help` for usage."@)
        }
    }
}

// ───────────────────────────── parsing ─────────────────────────────

/// An error whose message is `a`.
fn fail(a: &str) -> (r: Result<ParsedArgs, CliError>)
    ensures
        result_model(r) == Err::<ArgsModel, Seq<char>>(a@),
{
    let mut m = String::new();
    push_str(&mut m, a);
    Err(CliError { message: m })
}

/// An error whose message is `a + mid + b`.
fn fail3(a: &str, mid: &str, b: &str) -> (r: Result<ParsedArgs, CliError>)
    ensures
        result_model(r) == Err::<ArgsModel, Seq<char>>(a@ + mid@ + b@),
{
    let mut m = String::new();
    push_str(&mut m, a);
    push_str(&mut m, mid);
    push_str(&mut m, b);
    Err(CliError { message: m })
}

/// Parses the arguments of `wt pr`.
fn parse_pr(args: &Vec<String>, from: usize) -> (r: Result<ParsedArgs, CliError>)
    requires
        from <= args.len(),
    ensures
        result_model(r) == pr_model(views(args@).skip(from as int)),
{
    let ghost rest = views(args@).skip(from as int);
    if args.len() - from != 1 {
        return fail("Usage: wt pr <number>");
    }
    assert(rest[0] == args@[from as int]@);
    let raw = trim(args[from].as_str());
    let number = trim_start_char(raw.as_str(), '#');
    if number.as_str().is_empty() {
        return fail("PR number cannot be empty.");
    }
    match parse_u32(number.as_str()) {
        Some(n) => {
            if n == 0 {
                fail("PR number must be greater than zero.")
            } else {
                Ok(ParsedArgs::CheckoutPr { pr_number: n })
            }
        },
        None => fail3("Invalid PR number '", raw.as_str(), "'."),
    }
}

/// Whether two base selectors conflict: any selector after a first one.
fn check_auto(base: &BranchBase, flag: &str) -> (r: Option<CliError>)
    ensures
        r is None <==> base.model() is Auto,
        r matches Some(e) ==> e.message@ == conflict_message(flag@),
{
    match base {
        BranchBase::Auto => None,
        _ => {
            let mut m = String::new();
            push_str(&mut m, "Conflicting base options; cannot combine `");
            push_str(&mut m, flag);
            push_str(&mut m, "` with another base selector.");
            Some(CliError { message: m })
        },
    }
}

/// Parses the arguments of `wt b`.
fn parse_branch(args: &Vec<String>, from: usize) -> (r: Result<ParsedArgs, CliError>)
    requires
        from <= args.len(),
    ensures
        result_model(r) == branch_scan(views(args@).skip(from as int), 0, None, BaseModel::Auto),
{
    let ghost a = views(args@).skip(from as int);
    let mut branch_name: Option<String> = None;
    let mut base = BranchBase::Auto;
    let mut i: usize = from;
    while i < args.len()
        invariant
            from <= i <= args.len(),
            a == views(args@).skip(from as int),
            branch_scan(a, 0, None, BaseModel::Auto) == branch_scan(
                a,
                i - from,
                opt_chars(branch_name),
                base.model(),
            ),
        decreases args.len() - i,
    {
        let arg = args[i].as_str();
        let ghost k: int = i - from;
        assert(a[k] == arg@);
        if str_eq(arg, "--from-default") || str_eq(arg, "-d") {
            match check_auto(&base, "--from-default") {
                Some(e) => {
                    return Err(e);
                },
                None => {},
            }
            base = BranchBase::Default;
            i += 1;
        } else if str_eq(arg, "--from-current") {
            match check_auto(&base, "--from-current") {
                Some(e) => {
                    return Err(e);
                },
                None => {},
            }
            base = BranchBase::Current;
            i += 1;
        } else if let Some(value) = strip_prefix(arg, "--base=") {
            match check_auto(&base, "--base") {
                Some(e) => {
                    return Err(e);
                },
                None => {},
            }
            if is_blank(value.as_str()) {
                return fail("`--base` requires a branch name.");
            }
            base = BranchBase::Explicit(value);
            i += 1;
        } else if str_eq(arg, "--base") {
            match check_auto(&base, "--base") {
                Some(e) => {
                    return Err(e);
                },
                None => {},
            }
            if i + 1 >= args.len() {
                return fail("`--base` requires a branch name.");
            }
            assert(a[k + 1] == args@[i + 1]@);
            if is_blank(args[i + 1].as_str()) {
                return fail("`--base` requires a branch name.");
            }
            base = BranchBase::Explicit(copy_string(&args[i + 1]));
            i += 2;
        } else if starts_with(arg, "-") {
            return fail3("Unknown option '", arg, "' for `wt branch`.");
        } else if branch_name.is_some() {
            return fail("Usage: wt b <branch> [--from-default|--from-current|--base <branch>]");
        } else {
            branch_name = Some(copy_string(&args[i]));
            i += 1;
        }
    }
    match branch_name {
        Some(n) => Ok(ParsedArgs::Branch { branch_name: n, base }),
        None => fail("Usage: wt b <branch> [--from-default|--from-current|--base <branch>]"),
    }
}

/// Parses the arguments of `wt d`.
fn parse_delete(args: &Vec<String>, from: usize) -> (r: Result<ParsedArgs, CliError>)
    requires
        from <= args.len(),
    ensures
        result_model(r) == delete_scan(views(args@).skip(from as int), 0, None, false),
{
    let ghost a = views(args@).skip(from as int);
    let mut branch_name: Option<String> = None;
    let mut yes = false;
    let mut i: usize = from;
    while i < args.len()
        invariant
            from <= i <= args.len(),
            a == views(args@).skip(from as int),
            delete_scan(a, 0, None, false) == delete_scan(a, i - from, opt_chars(branch_name), yes),
        decreases args.len() - i,
    {
        let arg = args[i].as_str();
        assert(a[i - from] == arg@);
        if str_eq(arg, "--yes") {
            yes = true;
        } else if starts_with(arg, "-") {
            return fail3("Unknown option '", arg, "' for `wt delete`.");
        } else if branch_name.is_some() {
            return fail("Usage: wt d [branch] [--yes]");
        } else {
            branch_name = Some(copy_string(&args[i]));
        }
        i += 1;
    }
    Ok(ParsedArgs::Delete { branch_name, yes })
}

/// The optional argument of a command at `from`, if there is at most one.
fn take_optional(args: &Vec<String>, from: usize) -> (r: Option<Option<String>>)
    requires
        from <= args.len(),
    ensures
        match (r, optional_arg(views(args@).skip(from as int))) {
            (Some(x), Some(y)) => opt_chars(x) == y,
            (None, None) => true,
            _ => false,
        },
{
    let ghost rest = views(args@).skip(from as int);
    if args.len() == from {
        Some(None)
    } else if args.len() - from == 1 {
        assert(rest[0] == args@[from as int]@);
        Some(Some(copy_string(&args[from])))
    } else {
        None
    }
}

/// Parses the command line of `wt` (without the program name).
pub fn parse_args(args: Vec<String>) -> (r: Result<ParsedArgs, CliError>)
    ensures
        result_model(r) == parse_model(views(args@)),
{
    let ghost a = views(args@);
    if args.len() == 0 {
        return Ok(ParsedArgs::Tui { mark_tree: false });
    }
    assert(a[0] == args@[0]@);
    let cmd = args[0].as_str();
    if args.len() == 1 {
        if str_eq(cmd, "--version") || str_eq(cmd, "-V") {
            return Ok(ParsedArgs::Version);
        }
        if str_eq(cmd, "--update") {
            return Ok(ParsedArgs::Update);
        }
        if str_eq(cmd, "--mark-tree") {
            return Ok(ParsedArgs::Tui { mark_tree: true });
        }
    }
    assert(a.skip(1) == views(args@).skip(1));
    if str_eq(cmd, "--help") || str_eq(cmd, "-h") || str_eq(cmd, "help") {
        Ok(ParsedArgs::Help)
    } else if str_eq(cmd, "pr") || str_eq(cmd, "checkout-pr") {
        parse_pr(&args, 1)
    } else if str_eq(cmd, "b") || str_eq(cmd, "branch") {
        parse_branch(&args, 1)
    } else if str_eq(cmd, "d") || str_eq(cmd, "delete") {
        parse_delete(&args, 1)
    } else if str_eq(cmd, "clone") {
        if args.len() == 2 {
            assert(a.skip(1)[0] == args@[1]@);
            Ok(ParsedArgs::Clone { repo_source: copy_string(&args[1]), dest: None })
        } else if args.len() == 3 {
            assert(a.skip(1)[0] == args@[1]@);
            assert(a.skip(1)[1] == args@[2]@);
            Ok(
                ParsedArgs::Clone {
                    repo_source: copy_string(&args[1]),
                    dest: Some(copy_string(&args[2])),
                },
            )
        } else {
            fail("Usage: wt clone <repo> [dest]")
        }
    } else if str_eq(cmd, "p") || str_eq(cmd, "project") {
        match take_optional(&args, 1) {
            Some(name) => Ok(ParsedArgs::Project { name }),
            None => fail("Usage: wt p [project]"),
        }
    } else if str_eq(cmd, "gco") || str_eq(cmd, "checkout") {
        match take_optional(&args, 1) {
            Some(branch_name) => Ok(ParsedArgs::Checkout { branch_name }),
            None => fail("Usage: wt gco [branch]"),
        }
    } else if str_eq(cmd, "--install-shell") {
        match take_optional(&args, 1) {
            Some(shell) => Ok(ParsedArgs::InstallShell { shell }),
            None => fail("Usage: wt --install-shell [zsh|bash]"),
        }
    } else {
        fail3("Unknown command '", cmd, "'. Run `wt --help` for usage.")
    }
}

} // verus!
