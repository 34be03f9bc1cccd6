//! Self-update decisions: version order, which release asset fits this machine, and
//! whether a cached release check is still fresh.
use vstd::prelude::*;

use crate::text::{
    ascii_lower_seq, has_infix, has_prefix, is_digit, owned, parsed_u64, parse_u64, push_str,
    split_seq, split_str, str_eq, to_ascii_lowercase, trim, trim_seq, trim_start_char,
    trim_start_char_seq, views,
};

verus! {

/// What `wt` does after the startup update check.
#[derive(Debug, Clone, Copy, PartialEq, Eq, Structural)]
pub enum StartupUpdateAction {
    Continue,
    ExitAfterUpdateFlow,
}

/// The file-name prefix of every release binary.
pub const BINARY_NAME_PREFIX: &'static str = "worktree-navigator-";

/// How long a release check stays fresh, in seconds.
pub const CACHE_TTL_SECS: u64 = 21600;

// ───────────────────────────── versions ─────────────────────────────

/// A version without surrounding whitespace and a leading `v` or `V`.
pub open spec fn normalized_version(raw: Seq<char>) -> Seq<char> {
    trim_start_char_seq(trim_start_char_seq(trim_seq(raw), 'v'), 'V')
}

/// A version tag without surrounding whitespace and its leading `v`/`V`.
pub fn normalize_version(raw: &str) -> (r: String)
    ensures
        r@ == normalized_version(raw@),
{
    let t = trim(raw);
    let a = trim_start_char(t.as_str(), 'v');
    trim_start_char(a.as_str(), 'V')
}

/// The leading ASCII digits of `s`.
pub open spec fn digit_prefix(s: Seq<char>) -> Seq<char>
    decreases s.len(),
{
    if s.len() > 0 && is_digit(s[0]) {
        seq![s[0]] + digit_prefix(s.drop_first())
    } else {
        Seq::empty()
    }
}

/// The numbers of the dot-separated parts, each read from its leading digits; parts
/// without digits (or too large) are left out.
pub open spec fn part_numbers(parts: Seq<Seq<char>>) -> Seq<u64>
    decreases parts.len(),
{
    if parts.len() == 0 {
        Seq::empty()
    } else {
        let rest = part_numbers(parts.drop_last());
        match parsed_u64(digit_prefix(parts.last())) {
            Some(n) => rest.push(n as u64),
            None => rest,
        }
    }
}

/// The numeric components of a version such as `1.2.3-beta`.
pub open spec fn version_numbers(v: Seq<char>) -> Seq<u64> {
    part_numbers(split_seq(v, "."@))
}

/// The leading ASCII digits of a string.
fn leading_digits(s: &str) -> (r: String)
    ensures
        r@ == digit_prefix(s@),
{
    let v = crate::text::chars_of(s);
    let mut i: usize = 0;
    assert(v@.skip(0) == v@);
    assert(v@.take(0) == Seq::<char>::empty());
    while i < v.len() && '0' <= v[i] && v[i] <= '9'
        invariant
            i <= v.len(),
            v@ == s@,
            digit_prefix(s@) == v@.take(i as int) + digit_prefix(v@.skip(i as int)),
        decreases v.len() - i,
    {
        proof {
            let t = v@.skip(i as int);
            assert(t[0] == v@[i as int]);
            assert(t.drop_first() == v@.skip(i + 1));
            assert(v@.take(i + 1) == v@.take(i as int) + seq![v@[i as int]]);
        }
        i += 1;
    }
    proof {
        let t = v@.skip(i as int);
        if i < v.len() {
            assert(t[0] == v@[i as int]);
        }
        assert(digit_prefix(t) == Seq::<char>::empty());
        assert(v@.take(i as int) + Seq::<char>::empty() == v@.subrange(0, i as int));
    }
    crate::text::string_of_range(v.as_slice(), 0, i)
}

/// The numeric components of a version.
pub fn parse_version_numbers(version: &str) -> (r: Vec<u64>)
    ensures
        r@ == version_numbers(version@),
{
    proof {
        reveal_strlit(".");
    }
    let parts = split_str(version, ".");
    let ghost ps = views(parts@);
    let mut out: Vec<u64> = Vec::new();
    let mut i: usize = 0;
    while i < parts.len()
        invariant
            i <= parts@.len(),
            ps == views(parts@),
            out@ == part_numbers(ps.take(i as int)),
        decreases parts@.len() - i,
    {
        proof {
            let t = ps.take(i + 1);
            assert(t.drop_last() == ps.take(i as int));
            assert(t.last() == parts@[i as int]@);
        }
        let d = leading_digits(parts[i].as_str());
        match parse_u64(d.as_str()) {
            Some(n) => {
                out.push(n);
            },
            None => {},
        }
        i += 1;
    }
    assert(ps.take(ps.len() as int) == ps);
    out
}

/// Component `i` of a version, zero past its end.
pub open spec fn component(v: Seq<u64>, i: int) -> u64 {
    if 0 <= i < v.len() {
        v[i]
    } else {
        0
    }
}

/// Whether `a` is above `b`, comparing components from `i` on, missing ones as zero.
pub open spec fn newer_from(a: Seq<u64>, b: Seq<u64>, i: nat) -> bool
    decreases (if a.len() > b.len() { a.len() } else { b.len() }) - i,
{
    if i >= a.len() && i >= b.len() {
        false
    } else if component(a, i as int) > component(b, i as int) {
        true
    } else if component(a, i as int) < component(b, i as int) {
        false
    } else {
        newer_from(a, b, i + 1)
    }
}

/// Whether version `a` is above version `b`.
pub open spec fn newer(a: Seq<char>, b: Seq<char>) -> bool {
    newer_from(version_numbers(a), version_numbers(b), 0)
}

/// Whether `candidate` is a later version than `current`.
pub fn is_newer_version(candidate: &str, current: &str) -> (r: bool)
    ensures
        r == newer(candidate@, current@),
{
    let a = parse_version_numbers(candidate);
    let b = parse_version_numbers(current);
    let max_len = if a.len() > b.len() {
        a.len()
    } else {
        b.len()
    };
    let mut i: usize = 0;
    while i < max_len
        invariant
            i <= max_len,
            max_len == (if a@.len() > b@.len() { a@.len() } else { b@.len() }),
            newer(candidate@, current@) == newer_from(a@, b@, i as nat),
        decreases max_len - i,
    {
        let av = if i < a.len() {
            a[i]
        } else {
            0
        };
        let bv = if i < b.len() {
            b[i]
        } else {
            0
        };
        if av > bv {
            return true;
        }
        if av < bv {
            return false;
        }
        i += 1;
    }
    false
}

/// No version is newer than itself.
pub proof fn lemma_newer_irreflexive(a: Seq<u64>, i: nat)
    ensures
        !newer_from(a, a, i),
    decreases a.len() - i,
{
    if i < a.len() {
        lemma_newer_irreflexive(a, i + 1);
    }
}

/// Two versions are never newer than each other.
pub proof fn lemma_newer_asymmetric(a: Seq<u64>, b: Seq<u64>, i: nat)
    ensures
        !(newer_from(a, b, i) && newer_from(b, a, i)),
    decreases (if a.len() > b.len() { a.len() } else { b.len() }) - i,
{
    if i >= a.len() && i >= b.len() {
    } else if component(a, i as int) == component(b, i as int) {
        lemma_newer_asymmetric(a, b, i + 1);
    }
}

/// Newer-than is transitive.
pub proof fn lemma_newer_transitive(a: Seq<u64>, b: Seq<u64>, c: Seq<u64>, i: nat)
    requires
        newer_from(a, b, i),
        newer_from(b, c, i),
    ensures
        newer_from(a, c, i),
    decreases (if a.len() > b.len() {
        if a.len() > c.len() { a.len() } else { c.len() }
    } else {
        if b.len() > c.len() { b.len() } else { c.len() }
    }) - i,
{
    if component(a, i as int) == component(b, i as int) && component(b, i as int) == component(
        c,
        i as int,
    ) {
        lemma_newer_transitive(a, b, c, i + 1);
    }
}

/// Versions compare by their components: `v1.2` and `1.2.0` are the same version, so
/// neither is newer than the other.
pub proof fn lemma_version_order(a: Seq<char>, b: Seq<char>, c: Seq<char>)
    ensures
        !newer(a, a),
        !(newer(a, b) && newer(b, a)),
        newer(a, b) && newer(b, c) ==> newer(a, c),
{
    lemma_newer_irreflexive(version_numbers(a), 0);
    lemma_newer_asymmetric(version_numbers(a), version_numbers(b), 0);
    if newer(a, b) && newer(b, c) {
        lemma_newer_transitive(version_numbers(a), version_numbers(b), version_numbers(c), 0);
    }
}

// ───────────────────────────── release assets ─────────────────────────────

/// Some token of `ts` occurs in `s`.
pub open spec fn any_token_in(s: Seq<char>, ts: Seq<Seq<char>>) -> bool {
    exists|k: int| 0 <= k < ts.len() && has_infix(s, #[trigger] ts[k])
}

/// Whether a (lower-cased) asset name is a binary for this machine.
pub open spec fn asset_fits(lower: Seq<char>, arch: Seq<Seq<char>>, os: Seq<Seq<char>>, env: Seq<
    Seq<char>,
>) -> bool {
    has_prefix(lower, BINARY_NAME_PREFIX@) && any_token_in(lower, arch) && any_token_in(lower, os)
        && (env.len() == 0 || any_token_in(lower, env))
}

/// How well a fitting asset name matches: the primary architecture right after the
/// prefix counts three, the primary environment one.
pub open spec fn asset_score(lower: Seq<char>, arch: Seq<Seq<char>>, env: Seq<Seq<char>>) -> nat {
    (if arch.len() > 0 && has_infix(lower, BINARY_NAME_PREFIX@ + arch[0]) {
        3nat
    } else {
        0nat
    }) + (if env.len() > 0 && has_infix(lower, env[0]) {
        1nat
    } else {
        0nat
    })
}

/// The best fitting asset among the first `n`: the first one with the highest score.
pub open spec fn best_asset(
    assets: Seq<Seq<char>>,
    n: int,
    arch: Seq<Seq<char>>,
    os: Seq<Seq<char>>,
    env: Seq<Seq<char>>,
) -> Option<(nat, Seq<char>)>
    decreases n,
{
    if n <= 0 || n > assets.len() {
        None
    } else {
        let prev = best_asset(assets, n - 1, arch, os, env);
        let name = assets[n - 1];
        let lower = ascii_lower_seq(name);
        if !asset_fits(lower, arch, os, env) {
            prev
        } else {
            let score = asset_score(lower, arch, env);
            match prev {
                Some((s, p)) => if s >= score {
                    prev
                } else {
                    Some((score, name))
                },
                None => Some((score, name)),
            }
        }
    }
}

/// The release asset to install: an explicitly requested one if the release has it,
/// else the one installed before if it has that, else the best fitting binary.
pub open spec fn selected_asset(
    assets: Seq<Seq<char>>,
    explicit: Option<Seq<char>>,
    preferred: Option<Seq<char>>,
    arch: Seq<Seq<char>>,
    os: Seq<Seq<char>>,
    env: Seq<Seq<char>>,
) -> Option<Seq<char>> {
    if explicit is Some && assets.contains(explicit->0) {
        explicit
    } else if preferred is Some && assets.contains(preferred->0) {
        preferred
    } else {
        match best_asset(assets, assets.len() as int, arch, os, env) {
            Some((_, name)) => Some(name),
            None => None,
        }
    }
}

/// The best fitting asset among the first `n` is one of them, and it fits.
proof fn lemma_best_asset_fits(
    assets: Seq<Seq<char>>,
    n: int,
    arch: Seq<Seq<char>>,
    os: Seq<Seq<char>>,
    env: Seq<Seq<char>>,
)
    ensures
        match best_asset(assets, n, arch, os, env) {
            Some((_, name)) => assets.contains(name) && asset_fits(
                ascii_lower_seq(name),
                arch,
                os,
                env,
            ),
            None => true,
        },
    decreases n,
{
    if 0 < n <= assets.len() {
        lemma_best_asset_fits(assets, n - 1, arch, os, env);
        assert(assets[n - 1] == assets[n - 1]);
    }
}

/// An asset picked by the best-match rule (neither the requested nor the previously
/// installed one) is in the release, and its lower-cased name starts with the binary's
/// prefix and contains an architecture token, an operating-system token and, where
/// environment tokens are given, one of those.
pub proof fn lemma_selected_asset_fits_machine(
    assets: Seq<Seq<char>>,
    explicit: Option<Seq<char>>,
    preferred: Option<Seq<char>>,
    arch: Seq<Seq<char>>,
    os: Seq<Seq<char>>,
    env: Seq<Seq<char>>,
    name: Seq<char>,
)
    requires
        selected_asset(assets, explicit, preferred, arch, os, env) == Some(name),
        explicit != Some(name),
        preferred != Some(name),
    ensures
        assets.contains(name),
        has_prefix(ascii_lower_seq(name), BINARY_NAME_PREFIX@),
        exists|k: int| 0 <= k < arch.len() && has_infix(ascii_lower_seq(name), #[trigger] arch[k]),
        exists|k: int| 0 <= k < os.len() && has_infix(ascii_lower_seq(name), #[trigger] os[k]),
        env.len() == 0 || exists|k: int|
            0 <= k < env.len() && has_infix(ascii_lower_seq(name), #[trigger] env[k]),
{
    lemma_best_asset_fits(assets, assets.len() as int, arch, os, env);
}

/// The best fitting asset among the first `n` scores at least as high as every fitting
/// asset among them, and there is one exactly when some asset among them fits.
proof fn lemma_best_asset_max(
    assets: Seq<Seq<char>>,
    n: int,
    arch: Seq<Seq<char>>,
    os: Seq<Seq<char>>,
    env: Seq<Seq<char>>,
)
    requires
        0 <= n <= assets.len(),
    ensures
        match best_asset(assets, n, arch, os, env) {
            Some((s, name)) => s == asset_score(ascii_lower_seq(name), arch, env) && forall|j: int|
                0 <= j < n && asset_fits(ascii_lower_seq(#[trigger] assets[j]), arch, os, env)
                    ==> asset_score(ascii_lower_seq(assets[j]), arch, env) <= s,
            None => forall|j: int|
                0 <= j < n ==> !asset_fits(ascii_lower_seq(#[trigger] assets[j]), arch, os, env),
        },
    decreases n,
{
    if n > 0 {
        lemma_best_asset_max(assets, n - 1, arch, os, env);
    }
}

/// The best fitting asset among the first `n` is the first of them with its score: every
/// fitting asset before it scores lower.
proof fn lemma_best_asset_first(
    assets: Seq<Seq<char>>,
    n: int,
    arch: Seq<Seq<char>>,
    os: Seq<Seq<char>>,
    env: Seq<Seq<char>>,
)
    requires
        0 <= n <= assets.len(),
    ensures
        match best_asset(assets, n, arch, os, env) {
            Some((s, name)) => exists|k: int|
                0 <= k < n && #[trigger] assets[k] == name && forall|j: int|
                    0 <= j < k && asset_fits(ascii_lower_seq(#[trigger] assets[j]), arch, os, env)
                        ==> asset_score(ascii_lower_seq(assets[j]), arch, env) < s,
            None => true,
        },
    decreases n,
{
    if n > 0 {
        lemma_best_asset_first(assets, n - 1, arch, os, env);
        lemma_best_asset_max(assets, n - 1, arch, os, env);
        let prev = best_asset(assets, n - 1, arch, os, env);
        let name = assets[n - 1];
        let lower = ascii_lower_seq(name);
        if asset_fits(lower, arch, os, env) {
            let score = asset_score(lower, arch, env);
            match prev {
                Some((s, p)) => {
                    if s < score {
                        assert(assets[n - 1] == name);
                    }
                },
                None => {
                    assert(assets[n - 1] == name);
                },
            }
        }
    }
}

/// Where no asset was requested or installed before, the picked asset ranks at least as
/// high as every asset of the release that fits this machine, every fitting asset listed
/// before it ranks lower, and none is picked only when no asset fits.
pub proof fn lemma_selected_asset_ranks_highest(
    assets: Seq<Seq<char>>,
    arch: Seq<Seq<char>>,
    os: Seq<Seq<char>>,
    env: Seq<Seq<char>>,
)
    ensures
        match selected_asset(assets, None, None, arch, os, env) {
            Some(name) => (forall|j: int|
                0 <= j < assets.len() && asset_fits(ascii_lower_seq(#[trigger] assets[j]), arch, os, env)
                    ==> asset_score(ascii_lower_seq(assets[j]), arch, env) <= asset_score(
                    ascii_lower_seq(name),
                    arch,
                    env,
                )) && exists|k: int|
                    0 <= k < assets.len() && #[trigger] assets[k] == name && forall|j: int|
                        0 <= j < k && asset_fits(ascii_lower_seq(#[trigger] assets[j]), arch, os, env)
                            ==> asset_score(ascii_lower_seq(assets[j]), arch, env) < asset_score(
                            ascii_lower_seq(name),
                            arch,
                            env,
                        ),
            None => forall|j: int|
                0 <= j < assets.len() ==> !asset_fits(
                    ascii_lower_seq(#[trigger] assets[j]),
                    arch,
                    os,
                    env,
                ),
        },
{
    lemma_best_asset_max(assets, assets.len() as int, arch, os, env);
    lemma_best_asset_first(assets, assets.len() as int, arch, os, env);
}

/// An asset the user asked for is taken whenever the release has it; else the one
/// installed before, whenever the release has it.
pub proof fn lemma_selected_asset_prefers_requested(
    assets: Seq<Seq<char>>,
    explicit: Option<Seq<char>>,
    preferred: Option<Seq<char>>,
    arch: Seq<Seq<char>>,
    os: Seq<Seq<char>>,
    env: Seq<Seq<char>>,
)
    ensures
        explicit is Some && assets.contains(explicit->0) ==> selected_asset(
            assets,
            explicit,
            preferred,
            arch,
            os,
            env,
        ) == explicit,
        !(explicit is Some && assets.contains(explicit->0)) && preferred is Some
            && assets.contains(preferred->0) ==> selected_asset(
            assets,
            explicit,
            preferred,
            arch,
            os,
            env,
        ) == preferred,
{
}

/// Whether one of `ts` occurs in `s`.
fn any_token(s: &str, ts: &Vec<String>) -> (r: bool)
    ensures
        r == any_token_in(s@, views(ts@)),
{
    let mut k: usize = 0;
    while k < ts.len()
        invariant
            k <= ts@.len(),
            forall|j: int| 0 <= j < k ==> !has_infix(s@, #[trigger] views(ts@)[j]),
        decreases ts@.len() - k,
    {
        if crate::text::contains(s, ts[k].as_str()) {
            assert(views(ts@)[k as int] == ts@[k as int]@);
            return true;
        }
        assert(views(ts@)[k as int] == ts@[k as int]@);
        k += 1;
    }
    false
}

/// Whether `assets` holds `name`.
fn find_asset(assets: &Vec<String>, name: &str) -> (r: bool)
    ensures
        r == views(assets@).contains(name@),
{
    let mut k: usize = 0;
    while k < assets.len()
        invariant
            k <= assets@.len(),
            forall|j: int| 0 <= j < k ==> views(assets@)[j] != name@,
        decreases assets@.len() - k,
    {
        assert(views(assets@)[k as int] == assets@[k as int]@);
        if str_eq(assets[k].as_str(), name) {
            return true;
        }
        k += 1;
    }
    false
}

/// The optional characters of an optional string.
pub open spec fn opt_chars(o: Option<String>) -> Option<Seq<char>> {
    match o {
        Some(s) => Some(s@),
        None => None,
    }
}

/// Picks the release asset to install. `explicit` is the asset the user asked for,
/// `preferred` the one installed before; the tokens describe this machine's
/// architecture, operating system and C environment, most specific first.
pub fn select_asset_name(
    assets: &Vec<String>,
    explicit: &Option<String>,
    preferred: &Option<String>,
    arch: &Vec<String>,
    os: &Vec<String>,
    env: &Vec<String>,
) -> (r: Option<String>)
    ensures
        opt_chars(r) == selected_asset(
            views(assets@),
            opt_chars(*explicit),
            opt_chars(*preferred),
            views(arch@),
            views(os@),
            views(env@),
        ),
{
    if let Some(e) = explicit {
        if find_asset(assets, e.as_str()) {
            return Some(e.clone());
        }
    }
    if let Some(p) = preferred {
        if find_asset(assets, p.as_str()) {
            return Some(p.clone());
        }
    }
    let ghost a = views(assets@);
    let mut prefix_arch = owned(BINARY_NAME_PREFIX);
    if arch.len() > 0 {
        push_str(&mut prefix_arch, arch[0].as_str());
        assert(views(arch@)[0] == arch@[0]@);
    }
    let mut best: Option<(usize, usize)> = None;
    let mut i: usize = 0;
    while i < assets.len()
        invariant
            i <= assets@.len(),
            a == views(assets@),
            arch@.len() > 0 ==> prefix_arch@ == BINARY_NAME_PREFIX@ + views(arch@)[0],
            match (best, best_asset(a, i as int, views(arch@), views(os@), views(env@))) {
                (Some((s, k)), Some((t, n))) => s == t && k < i && a[k as int] == n,
                (None, None) => true,
                _ => false,
            },
        decreases assets@.len() - i,
    {
        let lower = to_ascii_lowercase(assets[i].as_str());
        assert(a[i as int] == assets@[i as int]@);
        let fits = crate::text::starts_with(lower.as_str(), BINARY_NAME_PREFIX) && any_token(
            lower.as_str(),
            arch,
        ) && any_token(lower.as_str(), os) && (env.len() == 0 || any_token(lower.as_str(), env));
        if fits {
            let mut score: usize = 0;
            if arch.len() > 0 && crate::text::contains(lower.as_str(), prefix_arch.as_str()) {
                score = 3;
            }
            if env.len() > 0 {
                assert(views(env@)[0] == env@[0]@);
                if crate::text::contains(lower.as_str(), env[0].as_str()) {
                    score = score + 1;
                }
            }
            match best {
                Some((s, _)) => {
                    if s < score {
                        best = Some((score, i));
                    }
                },
                None => {
                    best = Some((score, i));
                },
            }
        }
        i += 1;
    }
    match best {
        Some((_, k)) => Some(assets[k].clone()),
        None => None,
    }
}

/// The CPU names an asset name may use for this architecture (`std::env::consts::ARCH`).
pub fn arch_tokens(arch: &str) -> (r: Vec<String>)
    ensures
        views(r@) == (if arch@ == "x86_64"@ {
            seq!["x86_64"@, "amd64"@]
        } else if arch@ == "aarch64"@ {
            seq!["aarch64"@, "arm64"@]
        } else if arch@ == "x86"@ {
            seq!["i686"@, "x86"@]
        } else if arch@ == "arm"@ {
            seq!["armv7"@, "arm"@]
        } else {
            seq![arch@]
        }),
{
    let mut r: Vec<String> = Vec::new();
    if str_eq(arch, "x86_64") {
        r.push(owned("x86_64"));
        r.push(owned("amd64"));
    } else if str_eq(arch, "aarch64") {
        r.push(owned("aarch64"));
        r.push(owned("arm64"));
    } else if str_eq(arch, "x86") {
        r.push(owned("i686"));
        r.push(owned("x86"));
    } else if str_eq(arch, "arm") {
        r.push(owned("armv7"));
        r.push(owned("arm"));
    } else {
        r.push(owned(arch));
    }
    proof {
        assert(r@.len() <= 2);
        if r@.len() == 2 {
            assert(views(r@) =~= seq![r@[0]@, r@[1]@]);
        } else {
            assert(views(r@) =~= seq![r@[0]@]);
        }
    }
    r
}

/// The operating-system names an asset name may use (`std::env::consts::OS`).
pub fn os_tokens(os: &str) -> (r: Vec<String>)
    ensures
        views(r@) == (if os@ == "linux"@ {
            seq!["linux"@]
        } else if os@ == "macos"@ {
            seq!["apple-darwin"@, "darwin"@, "macos"@]
        } else if os@ == "windows"@ {
            seq!["pc-windows-msvc"@, "pc-windows-gnu"@, "windows"@]
        } else {
            seq![os@]
        }),
{
    let mut r: Vec<String> = Vec::new();
    if str_eq(os, "linux") {
        r.push(owned("linux"));
    } else if str_eq(os, "macos") {
        r.push(owned("apple-darwin"));
        r.push(owned("darwin"));
        r.push(owned("macos"));
    } else if str_eq(os, "windows") {
        r.push(owned("pc-windows-msvc"));
        r.push(owned("pc-windows-gnu"));
        r.push(owned("windows"));
    } else {
        r.push(owned(os));
    }
    proof {
        if r@.len() == 3 {
            assert(views(r@) =~= seq![r@[0]@, r@[1]@, r@[2]@]);
        } else {
            assert(views(r@) =~= seq![r@[0]@]);
        }
    }
    r
}

// ───────────────────────────── the release check ─────────────────────────────

/// A release as the check found it.
#[derive(Debug, Clone)]
pub struct LatestRelease {
    pub version: String,
    pub asset_name: Option<String>,
}

/// A release check kept on disk.
#[derive(Debug, Clone)]
pub struct UpdateCache {
    pub last_checked_unix: u64,
    pub latest_version: String,
    pub latest_asset_name: Option<String>,
}

/// Whether a check made at `last_checked` still answers at `now`.
pub open spec fn is_fresh(cache: UpdateCache, now: u64) -> bool {
    (if now >= cache.last_checked_unix {
        now - cache.last_checked_unix
    } else {
        0
    }) <= CACHE_TTL_SECS && cache.latest_version@.len() > 0
}

/// The release that a cached check reports, its asset falling back to the preferred one.
pub fn release_from_cache(cache: &UpdateCache, preferred: &Option<String>) -> (r: LatestRelease)
    ensures
        r.version@ == cache.latest_version@,
        opt_chars(r.asset_name) == (if cache.latest_asset_name is Some {
            opt_chars(cache.latest_asset_name)
        } else {
            opt_chars(*preferred)
        }),
{
    let asset_name = match &cache.latest_asset_name {
        Some(a) => Some(a.clone()),
        None => match preferred {
            Some(p) => Some(p.clone()),
            None => None,
        },
    };
    LatestRelease { version: cache.latest_version.clone(), asset_name }
}

/// The cached release, if the cache is fresh enough to skip asking GitHub.
pub fn fresh_cached_release(cache: &Option<UpdateCache>, now: u64, preferred: &Option<String>) -> (r:
    Option<LatestRelease>)
    ensures
        r is Some <==> (cache is Some && is_fresh(cache->0, now)),
        r matches Some(rel) ==> rel.version@ == cache->0.latest_version@ && opt_chars(
            rel.asset_name,
        ) == (if cache->0.latest_asset_name is Some {
            opt_chars(cache->0.latest_asset_name)
        } else {
            opt_chars(*preferred)
        }),
{
    match cache {
        Some(c) => {
            let age = if now >= c.last_checked_unix {
                now - c.last_checked_unix
            } else {
                0
            };
            if age <= CACHE_TTL_SECS && !c.latest_version.as_str().is_empty() {
                Some(release_from_cache(c, preferred))
            } else {
                None
            }
        },
        None => None,
    }
}

/// Whether an answer to the update prompt accepts: `y` or `yes`, in any ASCII case.
pub fn is_yes(answer: &str) -> (r: bool)
    ensures
        r == (ascii_lower_seq(trim_seq(answer@)) == "y"@ || ascii_lower_seq(trim_seq(answer@))
            == "yes"@),
{
    let t = trim(answer);
    let l = to_ascii_lowercase(t.as_str());
    str_eq(l.as_str(), "y") || str_eq(l.as_str(), "yes")
}

/// The asset an update installs, or why there is none.
pub fn update_asset(asset_name_hint: &Option<String>) -> (r: Result<String, String>)
    ensures
        match (r, asset_name_hint) {
            (Ok(a), Some(h)) => a@ == h@,
            (Err(e), None) => e@
                == "No compatible release asset found for this wt binary. Use manual install for your platform."@,
            _ => false,
        },
{
    match asset_name_hint {
        Some(a) => Ok(a.clone()),
        None => Err(
            owned(
                "No compatible release asset found for this wt binary. Use manual install for your platform.",
            ),
        ),
    }
}

} // verus!
