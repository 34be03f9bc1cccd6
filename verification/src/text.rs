//! Character-level text helpers with their meaning stated over `Seq<char>`.
use vstd::prelude::*;

verus! {

// ───────────────────────────── conversions ─────────────────────────────

/// `String::push`: appends one character.
#[verifier::external_body]
pub(crate) fn string_push(s: &mut String, c: char)
    ensures
        final(s)@ == old(s)@.push(c),
{
    s.push(c);
}

/// The characters of a string slice, in order.
pub fn chars_of(s: &str) -> (v: Vec<char>)
    ensures
        v@ == s@,
{
    let mut v: Vec<char> = Vec::new();
    for c in it: s.chars()
        invariant
            v@ == it.seq().take(it.index() as int),
            it.seq() == s@,
    {
        v.push(c);
    }
    v
}

/// A string made of the given characters.
pub fn string_of(v: &[char]) -> (s: String)
    ensures
        s@ == v@,
{
    let mut s = String::new();
    let mut i: usize = 0;
    while i < v.len()
        invariant
            i <= v.len(),
            s@ == v@.take(i as int),
        decreases v.len() - i,
    {
        string_push(&mut s, v[i]);
        i += 1;
    }
    s
}

/// A string made of the characters `v[from..to]`.
pub fn string_of_range(v: &[char], from: usize, to: usize) -> (s: String)
    requires
        from <= to <= v.len(),
    ensures
        s@ == v@.subrange(from as int, to as int),
{
    let mut s = String::new();
    let mut i: usize = from;
    while i < to
        invariant
            from <= i <= to <= v.len(),
            s@ == v@.subrange(from as int, i as int),
        decreases to - i,
    {
        string_push(&mut s, v[i]);
        i += 1;
    }
    s
}

/// Appends the characters of `v` to `s`.
pub fn push_chars(s: &mut String, v: &[char])
    ensures
        final(s)@ == old(s)@ + v@,
{
    let mut i: usize = 0;
    while i < v.len()
        invariant
            i <= v.len(),
            s@ == old(s)@ + v@.take(i as int),
        decreases v.len() - i,
    {
        string_push(s, v[i]);
        i += 1;
    }
}

/// Appends the characters of `t` to `s`.
pub fn push_str(s: &mut String, t: &str)
    ensures
        final(s)@ == old(s)@ + t@,
{
    let v = chars_of(t);
    push_chars(s, v.as_slice());
}

/// An owned copy of a string slice.
pub fn owned(s: &str) -> (r: String)
    ensures
        r@ == s@,
{
    let mut r = String::new();
    push_str(&mut r, s);
    r
}

/// A fresh copy of a string.
pub fn copy_string(s: &String) -> (r: String)
    ensures
        r@ == s@,
{
    s.clone()
}

/// Whether two strings hold the same characters.
pub fn str_eq(a: &str, b: &str) -> (r: bool)
    ensures
        r == (a@ == b@),
{
    let va = chars_of(a);
    let vb = chars_of(b);
    if va.len() != vb.len() {
        return false;
    }
    let mut i: usize = 0;
    while i < va.len()
        invariant
            va@ == a@,
            vb@ == b@,
            va.len() == vb.len(),
            i <= va.len(),
            va@.take(i as int) == vb@.take(i as int),
        decreases va.len() - i,
    {
        if va[i] != vb[i] {
            assert(va@[i as int] != vb@[i as int]);
            return false;
        }
        assert(va@.take(i + 1) == va@.take(i as int).push(va@[i as int]));
        assert(vb@.take(i + 1) == vb@.take(i as int).push(vb@[i as int]));
        i += 1;
    }
    assert(va@ == va@.take(va.len() as int));
    assert(vb@ == vb@.take(vb.len() as int));
    true
}

/// The number of characters in a string.
pub fn char_count(s: &str) -> (n: usize)
    ensures
        n == s@.len(),
{
    chars_of(s).len()
}

// ───────────────────────────── whitespace ─────────────────────────────

/// Unicode `White_Space`, the property that `char::is_whitespace` tests.
pub open spec fn is_ws(c: char) -> bool {
    let u = c as u32;
    ||| 0x09 <= u <= 0x0D
    ||| u == 0x20
    ||| u == 0x85
    ||| u == 0xA0
    ||| u == 0x1680
    ||| 0x2000 <= u <= 0x200A
    ||| u == 0x2028
    ||| u == 0x2029
    ||| u == 0x202F
    ||| u == 0x205F
    ||| u == 0x3000
}

/// `char::is_whitespace`.
pub fn is_whitespace(c: char) -> (r: bool)
    ensures
        r == is_ws(c),
{
    let u = c as u32;
    (0x09 <= u && u <= 0x0D) || u == 0x20 || u == 0x85 || u == 0xA0 || u == 0x1680 || (0x2000
        <= u && u <= 0x200A) || u == 0x2028 || u == 0x2029 || u == 0x202F || u == 0x205F || u
        == 0x3000
}

/// The sequence without its leading whitespace.
pub open spec fn trim_start_seq(s: Seq<char>) -> Seq<char>
    decreases s.len(),
{
    if s.len() > 0 && is_ws(s[0]) {
        trim_start_seq(s.drop_first())
    } else {
        s
    }
}

/// The sequence without its trailing whitespace.
pub open spec fn trim_end_seq(s: Seq<char>) -> Seq<char>
    decreases s.len(),
{
    if s.len() > 0 && is_ws(s.last()) {
        trim_end_seq(s.drop_last())
    } else {
        s
    }
}

/// The sequence without leading and trailing whitespace (`str::trim`).
pub open spec fn trim_seq(s: Seq<char>) -> Seq<char> {
    trim_end_seq(trim_start_seq(s))
}

/// Leading whitespace is what `trim_start_seq` drops.
proof fn lemma_trim_start_skip(s: Seq<char>, i: int)
    requires
        0 <= i <= s.len(),
        forall|j: int| 0 <= j < i ==> is_ws(#[trigger] s[j]),
    ensures
        trim_start_seq(s) == trim_start_seq(s.skip(i)),
    decreases i,
{
    if i > 0 {
        assert(s.drop_first().skip(i - 1) == s.skip(i));
        lemma_trim_start_skip(s.drop_first(), i - 1);
    } else {
        assert(s.skip(0) == s);
    }
}

/// Trailing whitespace is what `trim_end_seq` drops.
proof fn lemma_trim_end_take(s: Seq<char>, i: int)
    requires
        0 <= i <= s.len(),
        forall|j: int| i <= j < s.len() ==> is_ws(#[trigger] s[j]),
    ensures
        trim_end_seq(s) == trim_end_seq(s.take(i)),
    decreases s.len() - i,
{
    if i < s.len() {
        assert(s.drop_last().take(i) == s.take(i));
        lemma_trim_end_take(s.drop_last(), i);
    } else {
        assert(s.take(i) == s);
    }
}

/// Index of the first character of `v[from..]` that is not whitespace (or `v.len()`).
fn first_non_ws(v: &[char]) -> (i: usize)
    ensures
        i <= v.len(),
        forall|j: int| 0 <= j < i ==> is_ws(#[trigger] v@[j]),
        i < v.len() ==> !is_ws(v@[i as int]),
        trim_start_seq(v@) == v@.skip(i as int),
{
    let mut i: usize = 0;
    while i < v.len() && is_whitespace(v[i])
        invariant
            i <= v.len(),
            forall|j: int| 0 <= j < i ==> is_ws(#[trigger] v@[j]),
        decreases v.len() - i,
    {
        i += 1;
    }
    proof {
        lemma_trim_start_skip(v@, i as int);
    }
    i
}

/// Index just past the last character of `v[..to]` that is not whitespace.
fn end_non_ws(v: &[char], lo: usize) -> (i: usize)
    requires
        lo <= v.len(),
    ensures
        lo <= i <= v.len(),
        forall|j: int| i <= j < v.len() ==> is_ws(#[trigger] v@[j]),
        i > lo ==> !is_ws(v@[i - 1]),
        trim_end_seq(v@) == trim_end_seq(v@.take(i as int)),
{
    let mut i: usize = v.len();
    while i > lo && is_whitespace(v[i - 1])
        invariant
            lo <= i <= v.len(),
            forall|j: int| i <= j < v.len() ==> is_ws(#[trigger] v@[j]),
        decreases i,
    {
        i -= 1;
    }
    proof {
        lemma_trim_end_take(v@, i as int);
    }
    i
}

proof fn lemma_trim_end_fixed(s: Seq<char>)
    requires
        s.len() == 0 || !is_ws(s.last()),
    ensures
        trim_end_seq(s) == s,
{
}

/// `str::trim`.
pub fn trim(s: &str) -> (r: String)
    ensures
        r@ == trim_seq(s@),
{
    let v = chars_of(s);
    let a = first_non_ws(v.as_slice());
    let w = v.as_slice();
    let mut b: usize = v.len();
    while b > a && is_whitespace(v[b - 1])
        invariant
            a <= b <= v.len(),
            v@ == s@,
            forall|j: int| b <= j < v.len() ==> is_ws(#[trigger] v@[j]),
        decreases b,
    {
        b -= 1;
    }
    proof {
        let t = v@.skip(a as int);
        let k = (b - a) as int;
        assert forall|j: int| k <= j < t.len() implies is_ws(#[trigger] t[j]) by {
            assert(t[j] == v@[j + a]);
        }
        lemma_trim_end_take(t, k);
        assert(t.take(k) == v@.subrange(a as int, b as int));
        let u = v@.subrange(a as int, b as int);
        if u.len() > 0 {
            assert(u.last() == v@[b - 1]);
        }
        lemma_trim_end_fixed(u);
    }
    string_of_range(w, a, b)
}

/// `str::trim_start`.
pub fn trim_start(s: &str) -> (r: String)
    ensures
        r@ == trim_start_seq(s@),
{
    let v = chars_of(s);
    let a = first_non_ws(v.as_slice());
    string_of_range(v.as_slice(), a, v.len())
}

/// `str::trim_end`.
pub fn trim_end(s: &str) -> (r: String)
    ensures
        r@ == trim_end_seq(s@),
{
    let v = chars_of(s);
    let b = end_non_ws(v.as_slice(), 0);
    proof {
        let u = v@.take(b as int);
        if u.len() > 0 {
            assert(u.last() == v@[b - 1]);
        }
        lemma_trim_end_fixed(u);
        assert(v@.subrange(0, b as int) == u);
    }
    string_of_range(v.as_slice(), 0, b)
}


/// Trimming the end keeps a first character that is not whitespace.
proof fn lemma_trim_end_keeps_first(s: Seq<char>)
    requires
        s.len() > 0,
        !is_ws(s[0]),
    ensures
        trim_end_seq(s).len() > 0,
    decreases s.len(),
{
    if is_ws(s.last()) {
        assert(s.len() > 1);
        assert(s.drop_last()[0] == s[0]);
        lemma_trim_end_keeps_first(s.drop_last());
    }
}

/// Whether a string holds only whitespace (`s.trim().is_empty()`).
pub fn is_blank(s: &str) -> (r: bool)
    ensures
        r == (trim_seq(s@).len() == 0),
{
    let v = chars_of(s);
    let a = first_non_ws(v.as_slice());
    proof {
        let t = v@.skip(a as int);
        if a < v.len() {
            assert(t[0] == v@[a as int]);
            lemma_trim_end_keeps_first(t);
        } else {
            assert(t.len() == 0);
        }
    }
    a == v.len()
}

// ───────────────────────────── prefixes, suffixes, search ─────────────────────────────

/// `p` is a prefix of `s`.
pub open spec fn has_prefix(s: Seq<char>, p: Seq<char>) -> bool {
    p.len() <= s.len() && s.take(p.len() as int) == p
}

/// `p` is a suffix of `s`.
pub open spec fn has_suffix(s: Seq<char>, p: Seq<char>) -> bool {
    p.len() <= s.len() && s.skip(s.len() - p.len()) == p
}

/// `p` occurs in `s` starting at index `i`.
pub open spec fn occurs_at(s: Seq<char>, p: Seq<char>, i: int) -> bool {
    0 <= i && i + p.len() <= s.len() && s.subrange(i, i + p.len()) == p
}

/// `p` occurs somewhere in `s` (`str::contains`).
pub open spec fn has_infix(s: Seq<char>, p: Seq<char>) -> bool {
    exists|i: int| occurs_at(s, p, i)
}

/// Whether `p` occurs in `v` at index `i`.
pub fn matches_at(v: &[char], p: &[char], i: usize) -> (r: bool)
    ensures
        r == occurs_at(v@, p@, i as int),
{
    if i > v.len() || p.len() > v.len() - i {
        return false;
    }
    let mut k: usize = 0;
    while k < p.len()
        invariant
            i + p.len() <= v.len(),
            k <= p.len(),
            forall|j: int| 0 <= j < k ==> v@[i + j] == p@[j],
        decreases p.len() - k,
    {
        if v[i + k] != p[k] {
            assert(v@.subrange(i as int, i + p.len())[k as int] != p@[k as int]);
            return false;
        }
        k += 1;
    }
    assert(v@.subrange(i as int, i + p.len()) == p@);
    true
}

/// `str::starts_with` for a string pattern.
pub fn starts_with(s: &str, p: &str) -> (r: bool)
    ensures
        r == has_prefix(s@, p@),
{
    let v = chars_of(s);
    let w = chars_of(p);
    let r = matches_at(v.as_slice(), w.as_slice(), 0);
    proof {
        if w@.len() <= v@.len() {
            assert(v@.subrange(0, w@.len() as int) == v@.take(w@.len() as int));
        }
    }
    r
}

/// `str::ends_with` for a string pattern.
pub fn ends_with(s: &str, p: &str) -> (r: bool)
    ensures
        r == has_suffix(s@, p@),
{
    let v = chars_of(s);
    let w = chars_of(p);
    if w.len() > v.len() {
        return false;
    }
    let r = matches_at(v.as_slice(), w.as_slice(), v.len() - w.len());
    proof {
        assert(v@.subrange(v@.len() - w@.len(), v@.len() as int) == v@.skip(
            v@.len() - w@.len(),
        ));
    }
    r
}

/// Index of the first occurrence of `p` in `v` at or after `from`.
pub fn find_from(v: &[char], p: &[char], from: usize) -> (r: Option<usize>)
    ensures
        r matches Some(i) ==> from <= i && occurs_at(v@, p@, i as int) && forall|j: int|
            from <= j < i ==> !occurs_at(v@, p@, j),
        r is None ==> forall|j: int| from <= j ==> !occurs_at(v@, p@, j),
{
    let mut i: usize = from;
    while i <= v.len()
        invariant
            from <= i,
            forall|j: int| from <= j < i ==> !occurs_at(v@, p@, j),
        decreases v.len() + 1 - i,
    {
        if matches_at(v, p, i) {
            return Some(i);
        }
        if i == v.len() {
            assert forall|j: int| from <= j implies !occurs_at(v@, p@, j) by {
                if j > i {
                }
            }
            return None;
        }
        i += 1;
    }
    None
}

/// `str::contains` for a string pattern.
pub fn contains(s: &str, p: &str) -> (r: bool)
    ensures
        r == has_infix(s@, p@),
{
    let v = chars_of(s);
    let w = chars_of(p);
    match find_from(v.as_slice(), w.as_slice(), 0) {
        Some(i) => true,
        None => {
            assert forall|j: int| !occurs_at(s@, p@, j) by {
                if j < 0 {
                }
            }
            false
        },
    }
}

/// `str::strip_prefix` for a string pattern.
pub fn strip_prefix(s: &str, p: &str) -> (r: Option<String>)
    ensures
        r is Some <==> has_prefix(s@, p@),
        r matches Some(t) ==> t@ == s@.skip(p@.len() as int),
{
    let v = chars_of(s);
    let w = chars_of(p);
    if matches_at(v.as_slice(), w.as_slice(), 0) {
        assert(v@.subrange(0, w@.len() as int) == v@.take(w@.len() as int));
        Some(string_of_range(v.as_slice(), w.len(), v.len()))
    } else {
        proof {
            if w@.len() <= v@.len() {
                assert(v@.subrange(0, w@.len() as int) == v@.take(w@.len() as int));
            }
        }
        None
    }
}

/// `s` without every leading copy of `c` (`str::trim_start_matches` with a char).
pub open spec fn trim_start_char_seq(s: Seq<char>, c: char) -> Seq<char>
    decreases s.len(),
{
    if s.len() > 0 && s[0] == c {
        trim_start_char_seq(s.drop_first(), c)
    } else {
        s
    }
}

/// `s` without every trailing copy of `c` (`str::trim_end_matches` with a char).
pub open spec fn trim_end_char_seq(s: Seq<char>, c: char) -> Seq<char>
    decreases s.len(),
{
    if s.len() > 0 && s.last() == c {
        trim_end_char_seq(s.drop_last(), c)
    } else {
        s
    }
}

/// `str::trim_start_matches` with a character pattern.
pub fn trim_start_char(s: &str, c: char) -> (r: String)
    ensures
        r@ == trim_start_char_seq(s@, c),
{
    let v = chars_of(s);
    let mut i: usize = 0;
    assert(v@.skip(0) == v@);
    while i < v.len() && v[i] == c
        invariant
            i <= v.len(),
            v@ == s@,
            trim_start_char_seq(s@, c) == trim_start_char_seq(v@.skip(i as int), c),
        decreases v.len() - i,
    {
        assert(v@.skip(i as int).drop_first() == v@.skip(i + 1));
        i += 1;
    }
    assert(v@.subrange(i as int, v.len() as int) == v@.skip(i as int));
    string_of_range(v.as_slice(), i, v.len())
}

/// `str::trim_end_matches` with a character pattern.
pub fn trim_end_char(s: &str, c: char) -> (r: String)
    ensures
        r@ == trim_end_char_seq(s@, c),
{
    let v = chars_of(s);
    let mut i: usize = v.len();
    assert(v@.take(v.len() as int) == v@);
    while i > 0 && v[i - 1] == c
        invariant
            i <= v.len(),
            v@ == s@,
            trim_end_char_seq(s@, c) == trim_end_char_seq(v@.take(i as int), c),
        decreases i,
    {
        assert(v@.take(i as int).drop_last() == v@.take(i - 1));
        i -= 1;
    }
    assert(v@.subrange(0, i as int) == v@.take(i as int));
    string_of_range(v.as_slice(), 0, i)
}

/// `s` without every leading copy of the non-empty pattern `p`.
pub open spec fn trim_start_pat_seq(s: Seq<char>, p: Seq<char>) -> Seq<char>
    decreases s.len(),
{
    if p.len() > 0 && has_prefix(s, p) {
        trim_start_pat_seq(s.skip(p.len() as int), p)
    } else {
        s
    }
}

/// `s` without every trailing copy of the non-empty pattern `p`.
pub open spec fn trim_end_pat_seq(s: Seq<char>, p: Seq<char>) -> Seq<char>
    decreases s.len(),
{
    if p.len() > 0 && has_suffix(s, p) {
        trim_end_pat_seq(s.take(s.len() - p.len()), p)
    } else {
        s
    }
}

/// `str::trim_start_matches` with a string pattern.
pub fn trim_start_str(s: &str, p: &str) -> (r: String)
    ensures
        r@ == trim_start_pat_seq(s@, p@),
{
    let v = chars_of(s);
    let w = chars_of(p);
    if w.len() == 0 {
        return string_of(v.as_slice());
    }
    let mut i: usize = 0;
    assert(v@.skip(0) == v@);
    while matches_at(v.as_slice(), w.as_slice(), i)
        invariant
            i <= v.len(),
            v@ == s@,
            w@ == p@,
            w.len() > 0,
            trim_start_pat_seq(s@, p@) == trim_start_pat_seq(v@.skip(i as int), p@),
        decreases v.len() - i,
    {
        proof {
            let t = v@.skip(i as int);
            assert(t.take(w@.len() as int) == v@.subrange(i as int, i + w@.len()));
            assert(t.skip(w@.len() as int) == v@.skip(i + w@.len()));
        }
        i += w.len();
    }
    proof {
        let t = v@.skip(i as int);
        if w@.len() <= t.len() {
            assert(t.take(w@.len() as int) == v@.subrange(i as int, i + w@.len()));
        }
    }
    assert(v@.subrange(i as int, v.len() as int) == v@.skip(i as int));
    string_of_range(v.as_slice(), i, v.len())
}

/// `str::trim_end_matches` with a string pattern.
pub fn trim_end_str(s: &str, p: &str) -> (r: String)
    ensures
        r@ == trim_end_pat_seq(s@, p@),
{
    let v = chars_of(s);
    let w = chars_of(p);
    if w.len() == 0 {
        return string_of(v.as_slice());
    }
    let mut i: usize = v.len();
    assert(v@.take(v.len() as int) == v@);
    while i >= w.len() && matches_at(v.as_slice(), w.as_slice(), i - w.len())
        invariant
            i <= v.len(),
            v@ == s@,
            w@ == p@,
            w.len() > 0,
            trim_end_pat_seq(s@, p@) == trim_end_pat_seq(v@.take(i as int), p@),
        decreases i,
    {
        proof {
            let t = v@.take(i as int);
            assert(t.skip(t.len() - w@.len()) == v@.subrange(i - w@.len(), i as int));
            assert(t.take(t.len() - w@.len()) == v@.take(i - w@.len()));
        }
        i -= w.len();
    }
    proof {
        let t = v@.take(i as int);
        if w@.len() <= t.len() {
            assert(t.skip(t.len() - w@.len()) == v@.subrange(i - w@.len(), i as int));
        }
    }
    assert(v@.subrange(0, i as int) == v@.take(i as int));
    string_of_range(v.as_slice(), 0, i)
}

// ───────────────────────────── case ─────────────────────────────

/// ASCII lower-casing of one character (`char::to_ascii_lowercase`).
pub open spec fn ascii_lower(c: char) -> char {
    if 'A' <= c && c <= 'Z' {
        ((c as u32) + 32) as char
    } else {
        c
    }
}

/// ASCII lower-casing of a sequence (`str::to_ascii_lowercase`).
pub open spec fn ascii_lower_seq(s: Seq<char>) -> Seq<char> {
    s.map_values(|c: char| ascii_lower(c))
}

/// `char::to_ascii_lowercase`.
pub fn to_ascii_lower_char(c: char) -> (r: char)
    ensures
        r == ascii_lower(c),
{
    if 'A' <= c && c <= 'Z' {
        let u = ((c as u32) + 32) as u8;
        u as char
    } else {
        c
    }
}

/// `str::to_ascii_lowercase`.
pub fn to_ascii_lowercase(s: &str) -> (r: String)
    ensures
        r@ == ascii_lower_seq(s@),
{
    let v = chars_of(s);
    let mut out = String::new();
    let mut i: usize = 0;
    while i < v.len()
        invariant
            i <= v.len(),
            v@ == s@,
            out@ == ascii_lower_seq(v@.take(i as int)),
        decreases v.len() - i,
    {
        let c = to_ascii_lower_char(v[i]);
        string_push(&mut out, c);
        assert(ascii_lower_seq(v@.take(i + 1)) == ascii_lower_seq(v@.take(i as int)).push(c));
        i += 1;
    }
    assert(v@.take(v.len() as int) == v@);
    out
}

/// What `str::to_lowercase` makes of a string: Unicode lower-casing, a function of the
/// characters alone.
pub uninterp spec fn unicode_lower(s: Seq<char>) -> Seq<char>;

/// `str::to_lowercase`: the result is `unicode_lower` of the argument's characters.
#[verifier::external_body]
pub(crate) fn to_lowercase(s: &str) -> (r: String)
    ensures
        r@ == unicode_lower(s@),
{
    s.to_lowercase()
}

/// ASCII digit test (`char::is_ascii_digit`).
pub open spec fn is_digit(c: char) -> bool {
    '0' <= c && c <= '9'
}

/// Every character is an ASCII digit.
pub open spec fn all_digits(s: Seq<char>) -> bool {
    forall|i: int| 0 <= i < s.len() ==> is_digit(#[trigger] s[i])
}

/// The value of a digit character.
pub open spec fn digit_value(c: char) -> nat {
    (c as u32 - '0' as u32) as nat
}

/// The number that a string of decimal digits writes.
pub open spec fn decimal_value(s: Seq<char>) -> nat
    decreases s.len(),
{
    if s.len() == 0 {
        0
    } else {
        decimal_value(s.drop_last()) * 10 + digit_value(s.last())
    }
}

/// What `u64::from_str` gives: an optional `+`, then one or more ASCII digits whose
/// value fits in 64 bits.
pub open spec fn parsed_u64(s: Seq<char>) -> Option<nat> {
    let body = if s.len() > 0 && s[0] == '+' {
        s.drop_first()
    } else {
        s
    };
    if body.len() > 0 && all_digits(body) && decimal_value(body) <= u64::MAX {
        Some(decimal_value(body))
    } else {
        None
    }
}

/// Appending digits never lowers the value.
proof fn lemma_decimal_monotone(s: Seq<char>, k: int)
    requires
        0 <= k <= s.len(),
        all_digits(s),
    ensures
        decimal_value(s.take(k)) <= decimal_value(s),
    decreases s.len() - k,
{
    if k < s.len() {
        let t = s.take(k + 1);
        assert(t.drop_last() == s.take(k));
        lemma_decimal_monotone(s, k + 1);
    } else {
        assert(s.take(k) == s);
    }
}

/// `str::parse::<u64>`.
pub fn parse_u64(s: &str) -> (r: Option<u64>)
    ensures
        r matches Some(n) ==> parsed_u64(s@) == Some(n as nat),
        r is None ==> parsed_u64(s@) is None,
{
    let v = chars_of(s);
    let start: usize = if v.len() > 0 && v[0] == '+' {
        1
    } else {
        0
    };
    let ghost body = if s@.len() > 0 && s@[0] == '+' {
        s@.drop_first()
    } else {
        s@
    };
    assert(body == v@.skip(start as int));
    if start >= v.len() {
        return None;
    }
    let mut acc: u64 = 0;
    let mut i: usize = start;
    while i < v.len()
        invariant
            start <= i <= v.len(),
            v@ == s@,
            body == v@.skip(start as int),
            body == (if s@.len() > 0 && s@[0] == '+' {
                s@.drop_first()
            } else {
                s@
            }),
            all_digits(body.take(i - start)),
            acc == decimal_value(body.take(i - start)),
        decreases v.len() - i,
    {
        let c = v[i];
        proof {
            let t = body.take(i - start + 1);
            assert(t.drop_last() == body.take(i - start));
            assert(t.last() == c);
        }
        if c < '0' || c > '9' {
            proof {
                assert(body[i - start] == c);
                assert(!is_digit(body[i - start]));
            }
            return None;
        }
        let d: u64 = ((c as u32) - ('0' as u32)) as u64;
        if acc > (u64::MAX - d) / 10 {
            proof {
                assert(decimal_value(body.take(i - start + 1)) == acc * 10 + d) by {
                    assert(body.take(i - start + 1).drop_last() == body.take(i - start));
                }
                assert(acc * 10 + d > u64::MAX) by (nonlinear_arith)
                    requires
                        acc > (u64::MAX - d) / 10,
                        d <= 9,
                ;
                if all_digits(body) {
                    lemma_decimal_monotone(body, i - start + 1);
                }
            }
            return None;
        }
        proof {
            assert(acc * 10 + d <= u64::MAX) by (nonlinear_arith)
                requires
                    acc <= (u64::MAX - d) / 10,
                    d <= 9,
            ;
            let t = body.take(i - start + 1);
            assert forall|j: int| 0 <= j < t.len() implies is_digit(#[trigger] t[j]) by {
                if j < t.len() - 1 {
                    assert(t[j] == body.take(i - start)[j]);
                }
            }
        }
        acc = acc * 10 + d;
        i += 1;
    }
    assert(body.take(i - start) == body);
    Some(acc)
}

/// `str::parse::<u32>`: the same grammar as `u64`, with the value bound to 32 bits.
pub fn parse_u32(s: &str) -> (r: Option<u32>)
    ensures
        r matches Some(n) ==> parsed_u64(s@) == Some(n as nat),
        r is None ==> (parsed_u64(s@) matches Some(n) ==> n > u32::MAX) || parsed_u64(s@) is None,
{
    match parse_u64(s) {
        Some(n) => if n <= u32::MAX as u64 {
            Some(n as u32)
        } else {
            None
        },
        None => None,
    }
}


// ───────────────────────────── splitting ─────────────────────────────

/// Index of the first occurrence of `p` in `s`, or -1.
pub open spec fn first_occ(s: Seq<char>, p: Seq<char>) -> int
    decreases s.len(),
{
    if occurs_at(s, p, 0) {
        0
    } else if s.len() == 0 {
        -1
    } else {
        let r = first_occ(s.drop_first(), p);
        if r < 0 {
            -1
        } else {
            r + 1
        }
    }
}

proof fn lemma_occurs_shift(s: Seq<char>, p: Seq<char>, j: int)
    requires
        s.len() > 0,
        j >= 0,
    ensures
        occurs_at(s.drop_first(), p, j) == occurs_at(s, p, j + 1),
{
    if 0 <= j && j + p.len() <= s.len() - 1 {
        assert(s.drop_first().subrange(j, j + p.len()) == s.subrange(j + 1, j + 1 + p.len()));
    }
}

/// Occurrences in a suffix are occurrences in the whole, shifted.
proof fn lemma_occurs_skip(v: Seq<char>, p: Seq<char>, start: int, j: int)
    requires
        0 <= start <= v.len(),
        j >= 0,
    ensures
        occurs_at(v.skip(start), p, j) == occurs_at(v, p, j + start),
{
    if 0 <= j && j + p.len() <= v.len() - start {
        assert(v.skip(start).subrange(j, j + p.len()) == v.subrange(j + start, j + start + p.len()));
    }
}

/// `first_occ` is the first index where `p` occurs.
pub proof fn lemma_first_occ(s: Seq<char>, p: Seq<char>)
    ensures
        first_occ(s, p) >= 0 ==> occurs_at(s, p, first_occ(s, p)) && forall|j: int|
            0 <= j < first_occ(s, p) ==> !occurs_at(s, p, j),
        first_occ(s, p) < 0 ==> forall|j: int| !occurs_at(s, p, j),
    decreases s.len(),
{
    if occurs_at(s, p, 0) {
    } else if s.len() == 0 {
        assert forall|j: int| !occurs_at(s, p, j) by {
            if occurs_at(s, p, j) {
                assert(j == 0);
                assert(s.subrange(0, 0) =~= Seq::<char>::empty());
            }
        }
    } else {
        lemma_first_occ(s.drop_first(), p);
        let r = first_occ(s.drop_first(), p);
        if r >= 0 {
            lemma_occurs_shift(s, p, r);
            assert forall|j: int| 0 <= j < r + 1 implies !occurs_at(s, p, j) by {
                if j > 0 {
                    lemma_occurs_shift(s, p, j - 1);
                }
            }
        } else {
            assert forall|j: int| !occurs_at(s, p, j) by {
                if j > 0 {
                    lemma_occurs_shift(s, p, j - 1);
                }
            }
        }
    }
}

/// The pieces of `s` between the occurrences of the non-empty pattern `p` (`str::split`).
pub open spec fn split_seq(s: Seq<char>, p: Seq<char>) -> Seq<Seq<char>>
    recommends
        p.len() > 0,
    decreases s.len(),
{
    let i = first_occ(s, p);
    if p.len() == 0 || i < 0 {
        seq![s]
    } else {
        proof {
            lemma_first_occ(s, p);
        }
        seq![s.take(i)] + split_seq(s.skip(i + p.len()), p)
    }
}

/// The lines of `s`, split at `\n` with one `\r` before it dropped (`str::lines`).
pub open spec fn lines_seq(s: Seq<char>) -> Seq<Seq<char>>
    decreases s.len(),
{
    let i = first_occ(s, seq!['\n']);
    if s.len() == 0 {
        seq![]
    } else if i < 0 {
        seq![s]
    } else {
        proof {
            lemma_first_occ(s, seq!['\n']);
        }
        let line = s.take(i);
        let line = if line.len() > 0 && line.last() == '\r' {
            line.drop_last()
        } else {
            line
        };
        seq![line] + lines_seq(s.skip(i + 1))
    }
}

/// The views of a sequence of strings.
pub open spec fn views(v: Seq<String>) -> Seq<Seq<char>> {
    v.map_values(|x: String| x@)
}

proof fn lemma_views_push(v: Seq<String>, x: String)
    ensures
        views(v.push(x)) == views(v).push(x@),
{
    assert(views(v.push(x)) =~= views(v).push(x@));
}

/// `str::split` with a non-empty string pattern.
pub fn split_str(s: &str, p: &str) -> (r: Vec<String>)
    requires
        p@.len() > 0,
    ensures
        views(r@) == split_seq(s@, p@),
{
    let v = chars_of(s);
    let w = chars_of(p);
    let mut out: Vec<String> = Vec::new();
    let mut start: usize = 0;
    assert(v@.skip(0) == v@);
    loop
        invariant
            v@ == s@,
            w@ == p@,
            w.len() > 0,
            start <= v.len(),
            split_seq(s@, p@) == views(out@) + split_seq(v@.skip(start as int), p@),
        decreases v.len() - start,
    {
        let ghost t = v@.skip(start as int);
        proof {
            lemma_first_occ(t, p@);
        }
        match find_from(v.as_slice(), w.as_slice(), start) {
            Some(i) => {
                proof {
                    assert forall|j: int| !(0 <= j < i - start) || !occurs_at(t, p@, j) by {
                        if j >= 0 { lemma_occurs_skip(v@, p@, start as int, j); }
                    }
                    assert(t.subrange(i - start, i - start + p@.len()) == v@.subrange(
                        i as int,
                        i + p@.len(),
                    ));
                    lemma_occurs_skip(v@, p@, start as int, i - start);
                    assert(first_occ(t, p@) == i - start);
                    assert(t.take(i - start) == v@.subrange(start as int, i as int));
                    assert(t.skip(i - start + p@.len()) == v@.skip(i + w@.len()));
                }
                let piece = string_of_range(v.as_slice(), start, i);
                proof {
                    lemma_views_push(out@, piece);
                }
                out.push(piece);
                start = i + w.len();
            },
            None => {
                proof {
                    assert forall|j: int| !occurs_at(t, p@, j) by {
                        if j >= 0 { lemma_occurs_skip(v@, p@, start as int, j); }
                    }
                    if first_occ(t, p@) >= 0 {
                        assert(occurs_at(t, p@, first_occ(t, p@)));
                    }
                    assert(v@.subrange(start as int, v@.len() as int) == t);
                }
                let piece = string_of_range(v.as_slice(), start, v.len());
                proof {
                    lemma_views_push(out@, piece);
                }
                out.push(piece);
                return out;
            },
        }
    }
}

/// `str::lines`.
pub fn lines(s: &str) -> (r: Vec<String>)
    ensures
        views(r@) == lines_seq(s@),
{
    let v = chars_of(s);
    let nl = vec!['\n'];
    let mut out: Vec<String> = Vec::new();
    let mut start: usize = 0;
    assert(v@.skip(0) == v@);
    assert(nl@ == seq!['\n']);
    loop
        invariant
            v@ == s@,
            nl@ == seq!['\n'],
            start <= v.len(),
            lines_seq(s@) == views(out@) + lines_seq(v@.skip(start as int)),
        decreases v.len() - start,
    {
        let ghost t = v@.skip(start as int);
        proof {
            lemma_first_occ(t, seq!['\n']);
        }
        if start == v.len() {
            assert(t.len() == 0);
            assert(views(out@) + lines_seq(t) == views(out@));
            return out;
        }
        match find_from(v.as_slice(), nl.as_slice(), start) {
            Some(i) => {
                proof {
                    assert forall|j: int| !(0 <= j < i - start) || !occurs_at(t, seq!['\n'], j) by {
                        if j >= 0 { lemma_occurs_skip(v@, seq!['\n'], start as int, j); }
                    }
                    assert(t.subrange(i - start, i - start + 1) == v@.subrange(i as int, i + 1));
                    lemma_occurs_skip(v@, seq!['\n'], start as int, i - start);
                    assert(first_occ(t, seq!['\n']) == i - start);
                    assert(t.take(i - start) == v@.subrange(start as int, i as int));
                    assert(t.skip(i - start + 1) == v@.skip(i + 1));
                }
                let end = if i > start && v[i - 1] == '\r' {
                    i - 1
                } else {
                    i
                };
                proof {
                    let line = t.take(i - start);
                    if i > start && v@[i - 1] == '\r' {
                        assert(line.last() == v@[i - 1]);
                        assert(line.drop_last() == v@.subrange(start as int, end as int));
                    }
                }
                let piece = string_of_range(v.as_slice(), start, end);
                proof {
                    lemma_views_push(out@, piece);
                }
                out.push(piece);
                start = i + 1;
            },
            None => {
                proof {
                    assert forall|j: int| !occurs_at(t, seq!['\n'], j) by {
                        if j >= 0 { lemma_occurs_skip(v@, seq!['\n'], start as int, j); }
                    }
                    if first_occ(t, seq!['\n']) >= 0 {
                        assert(occurs_at(t, seq!['\n'], first_occ(t, seq!['\n'])));
                    }
                    assert(v@.subrange(start as int, v@.len() as int) == t);
                }
                let piece = string_of_range(v.as_slice(), start, v.len());
                proof {
                    lemma_views_push(out@, piece);
                }
                out.push(piece);
                return out;
            },
        }
    }
}

} // verus!
