//! The lexicographic order on strings, by code point, as `str`'s `<=` has it.
use vstd::prelude::*;
use vstd::relations::*;

use crate::text::{chars_of, str_eq};

verus! {

/// `a` comes no later than `b`: at the first position where they differ `a` has the
/// smaller code point, or `a` is a prefix of `b`.
pub open spec fn chars_le(a: Seq<char>, b: Seq<char>) -> bool
    decreases a.len(),
{
    if a.len() == 0 {
        true
    } else if b.len() == 0 {
        false
    } else if a[0] != b[0] {
        (a[0] as u32) < (b[0] as u32)
    } else {
        chars_le(a.drop_first(), b.drop_first())
    }
}

/// The order is reflexive.
pub proof fn lemma_chars_le_reflexive(a: Seq<char>)
    ensures
        chars_le(a, a),
    decreases a.len(),
{
    if a.len() > 0 {
        lemma_chars_le_reflexive(a.drop_first());
    }
}

/// Two strings each no later than the other are equal.
pub proof fn lemma_chars_le_antisymmetric(a: Seq<char>, b: Seq<char>)
    requires
        chars_le(a, b),
        chars_le(b, a),
    ensures
        a == b,
    decreases a.len(),
{
    if a.len() > 0 && b.len() > 0 {
        lemma_chars_le_antisymmetric(a.drop_first(), b.drop_first());
        assert(a =~= seq![a[0]] + a.drop_first());
        assert(b =~= seq![b[0]] + b.drop_first());
    }
}

/// The order is transitive.
pub proof fn lemma_chars_le_transitive(a: Seq<char>, b: Seq<char>, c: Seq<char>)
    requires
        chars_le(a, b),
        chars_le(b, c),
    ensures
        chars_le(a, c),
    decreases a.len(),
{
    if a.len() > 0 && b.len() > 0 && c.len() > 0 {
        if a[0] == b[0] && b[0] == c[0] {
            lemma_chars_le_transitive(a.drop_first(), b.drop_first(), c.drop_first());
        }
    }
}

/// Any two strings are ordered one way or the other.
pub proof fn lemma_chars_le_total(a: Seq<char>, b: Seq<char>)
    ensures
        chars_le(a, b) || chars_le(b, a),
    decreases a.len(),
{
    if a.len() > 0 && b.len() > 0 {
        if a[0] == b[0] {
            lemma_chars_le_total(a.drop_first(), b.drop_first());
        } else {
            vstd::utf8::char_u32_cast(a[0], a[0] as u32);
            vstd::utf8::char_u32_cast(b[0], b[0] as u32);
        }
    }
}

/// `chars_le` is a total order.
pub proof fn lemma_chars_le_total_ordering()
    ensures
        total_ordering(|a: Seq<char>, b: Seq<char>| chars_le(a, b)),
{
    let r = |a: Seq<char>, b: Seq<char>| chars_le(a, b);
    assert forall|x: Seq<char>| #[trigger] r(x, x) by {
        lemma_chars_le_reflexive(x);
    }
    assert forall|x: Seq<char>, y: Seq<char>| #[trigger] r(x, y) && #[trigger] r(y, x) implies x
        == y by {
        lemma_chars_le_antisymmetric(x, y);
    }
    assert forall|x: Seq<char>, y: Seq<char>, z: Seq<char>| #[trigger] r(x, y) && #[trigger] r(
        y,
        z,
    ) implies r(x, z) by {
        lemma_chars_le_transitive(x, y, z);
    }
    assert forall|x: Seq<char>, y: Seq<char>| #[trigger] r(x, y) || #[trigger] r(y, x) by {
        lemma_chars_le_total(x, y);
    }
}

/// Whether `a` comes no later than `b` in the order of code points.
pub fn str_le(a: &str, b: &str) -> (r: bool)
    ensures
        r == chars_le(a@, b@),
{
    let va = chars_of(a);
    let vb = chars_of(b);
    let mut i: usize = 0;
    assert(a@.skip(0) =~= a@);
    assert(b@.skip(0) =~= b@);
    while i < va.len() && i < vb.len()
        invariant
            va@ == a@,
            vb@ == b@,
            i <= va@.len(),
            i <= vb@.len(),
            chars_le(a@, b@) == chars_le(a@.skip(i as int), b@.skip(i as int)),
        decreases va@.len() - i,
    {
        let x = va[i];
        let y = vb[i];
        proof {
            let sa = a@.skip(i as int);
            let sb = b@.skip(i as int);
            assert(sa[0] == x);
            assert(sb[0] == y);
            assert(sa.drop_first() =~= a@.skip(i + 1));
            assert(sb.drop_first() =~= b@.skip(i + 1));
        }
        if x != y {
            let xu = x as u32;
            let yu = y as u32;
            return xu < yu;
        }
        i += 1;
    }
    proof {
        if i == va.len() {
            assert(a@.skip(i as int).len() == 0);
        } else {
            assert(b@.skip(i as int).len() == 0);
        }
    }
    i == va.len()
}

/// The lexicographic order on sequences of strings, each compared by `chars_le`.
pub open spec fn segs_le(a: Seq<Seq<char>>, b: Seq<Seq<char>>) -> bool
    decreases a.len(),
{
    if a.len() == 0 {
        true
    } else if b.len() == 0 {
        false
    } else if a[0] != b[0] {
        chars_le(a[0], b[0])
    } else {
        segs_le(a.drop_first(), b.drop_first())
    }
}

/// `segs_le` is reflexive.
pub proof fn lemma_segs_le_reflexive(a: Seq<Seq<char>>)
    ensures
        segs_le(a, a),
    decreases a.len(),
{
    if a.len() > 0 {
        lemma_segs_le_reflexive(a.drop_first());
    }
}

/// Two sequences each no later than the other are equal.
pub proof fn lemma_segs_le_antisymmetric(a: Seq<Seq<char>>, b: Seq<Seq<char>>)
    requires
        segs_le(a, b),
        segs_le(b, a),
    ensures
        a == b,
    decreases a.len(),
{
    if a.len() > 0 && b.len() > 0 {
        if a[0] != b[0] {
            lemma_chars_le_antisymmetric(a[0], b[0]);
        } else {
            lemma_segs_le_antisymmetric(a.drop_first(), b.drop_first());
            assert(a =~= seq![a[0]] + a.drop_first());
            assert(b =~= seq![b[0]] + b.drop_first());
        }
    }
}

/// `segs_le` is transitive.
pub proof fn lemma_segs_le_transitive(a: Seq<Seq<char>>, b: Seq<Seq<char>>, c: Seq<Seq<char>>)
    requires
        segs_le(a, b),
        segs_le(b, c),
    ensures
        segs_le(a, c),
    decreases a.len(),
{
    if a.len() > 0 && b.len() > 0 && c.len() > 0 {
        if a[0] == b[0] && b[0] == c[0] {
            lemma_segs_le_transitive(a.drop_first(), b.drop_first(), c.drop_first());
        } else if a[0] == b[0] {
        } else if b[0] == c[0] {
        } else {
            lemma_chars_le_transitive(a[0], b[0], c[0]);
            if a[0] == c[0] {
                lemma_chars_le_antisymmetric(a[0], b[0]);
            }
        }
    }
}

/// Any two sequences of strings are ordered one way or the other.
pub proof fn lemma_segs_le_total(a: Seq<Seq<char>>, b: Seq<Seq<char>>)
    ensures
        segs_le(a, b) || segs_le(b, a),
    decreases a.len(),
{
    if a.len() > 0 && b.len() > 0 {
        if a[0] == b[0] {
            lemma_segs_le_total(a.drop_first(), b.drop_first());
        } else {
            lemma_chars_le_total(a[0], b[0]);
        }
    }
}

/// Whether the strings of `a` come no later than those of `b` (see `segs_le`).
pub fn segs_le_exec(a: &Vec<String>, b: &Vec<String>) -> (r: bool)
    ensures
        r == segs_le(a@.map_values(|s: String| s@), b@.map_values(|s: String| s@)),
{
    let ghost va = a@.map_values(|s: String| s@);
    let ghost vb = b@.map_values(|s: String| s@);
    let mut i: usize = 0;
    assert(va.skip(0) =~= va);
    assert(vb.skip(0) =~= vb);
    while i < a.len() && i < b.len()
        invariant
            va == a@.map_values(|s: String| s@),
            vb == b@.map_values(|s: String| s@),
            i <= a@.len(),
            i <= b@.len(),
            segs_le(va, vb) == segs_le(va.skip(i as int), vb.skip(i as int)),
        decreases a@.len() - i,
    {
        proof {
            let sa = va.skip(i as int);
            let sb = vb.skip(i as int);
            assert(sa[0] == a@[i as int]@);
            assert(sb[0] == b@[i as int]@);
            assert(sa.drop_first() =~= va.skip(i + 1));
            assert(sb.drop_first() =~= vb.skip(i + 1));
        }
        if !str_eq(a[i].as_str(), b[i].as_str()) {
            return str_le(a[i].as_str(), b[i].as_str());
        }
        i += 1;
    }
    proof {
        if i == a.len() {
            assert(va.skip(i as int).len() == 0);
        } else {
            assert(vb.skip(i as int).len() == 0);
        }
    }
    i == a.len()
}

} // verus!
