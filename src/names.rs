//! The order of member names, and sorting by it.
use vstd::prelude::*;

verus! {

/// Lexicographic order on names, character by character: the order of `String`.
pub open spec fn name_le(a: Seq<char>, b: Seq<char>) -> bool
    decreases a.len(),
{
    if a.len() == 0 {
        true
    } else if b.len() == 0 {
        false
    } else if a[0] as u32 != b[0] as u32 {
        (a[0] as u32) < (b[0] as u32)
    } else {
        name_le(a.drop_first(), b.drop_first())
    }
}

/// Whether each name is at most the next one.
pub open spec fn names_sorted(s: Seq<Seq<char>>) -> bool {
    forall|i: int| 0 <= i < s.len() - 1 ==> name_le(#[trigger] s[i], s[i + 1])
}

/// The views of some strings.
pub open spec fn name_views(v: Seq<String>) -> Seq<Seq<char>> {
    v.map_values(|s: String| s@)
}

/// Any two names are ordered one way or the other.
pub proof fn lemma_name_le_total(a: Seq<char>, b: Seq<char>)
    ensures
        name_le(a, b) || name_le(b, a),
    decreases a.len(),
{
    if a.len() > 0 && b.len() > 0 && a[0] as u32 == b[0] as u32 {
        lemma_name_le_total(a.drop_first(), b.drop_first());
    }
}

/// Whether `a` comes before `b` or equals it, in the order of names.
pub fn name_le_exec(a: &String, b: &String) -> (r: bool)
    ensures
        r == name_le(a@, b@),
{
    let sa = a.as_str();
    let sb = b.as_str();
    let na = sa.unicode_len();
    let nb = sb.unicode_len();
    let mut i: usize = 0;
    assert(a@.subrange(0, na as int) =~= a@);
    assert(b@.subrange(0, nb as int) =~= b@);
    while i < na && i < nb
        invariant
            i <= na,
            i <= nb,
            na == a@.len(),
            nb == b@.len(),
            sa@ == a@,
            sb@ == b@,
            name_le(a@, b@) == name_le(a@.subrange(i as int, na as int), b@.subrange(i as int, nb as int)),
        decreases na - i,
    {
        let ca = sa.get_char(i);
        let cb = sb.get_char(i);
        let ghost ra = a@.subrange(i as int, na as int);
        let ghost rb = b@.subrange(i as int, nb as int);
        assert(ra[0] == ca && rb[0] == cb);
        if ca as u32 != cb as u32 {
            return (ca as u32) < (cb as u32);
        }
        assert(ra.drop_first() =~= a@.subrange(i + 1, na as int));
        assert(rb.drop_first() =~= b@.subrange(i + 1, nb as int));
        i = i + 1;
    }
    i == na
}

/// Inserting a name after the names below it and before the others keeps the order.
proof fn lemma_insert_sorted(before: Seq<Seq<char>>, p: int, x: Seq<char>)
    requires
        names_sorted(before),
        0 <= p <= before.len(),
        p > 0 ==> name_le(before[p - 1], x),
        p < before.len() ==> name_le(x, before[p]),
    ensures
        names_sorted(before.insert(p, x)),
{
    let after = before.insert(p, x);
    assert forall|j: int| 0 <= j < after.len() - 1 implies name_le(#[trigger] after[j], after[j + 1]) by {
        if j < p - 1 {
            assert(after[j] == before[j] && after[j + 1] == before[j + 1]);
        } else if j == p - 1 {
            assert(after[j] == before[j] && after[j + 1] == x);
        } else if j == p {
            assert(after[j] == x && after[j + 1] == before[j]);
        } else {
            assert(after[j] == before[j - 1] && after[j + 1] == before[j]);
        }
    }
}

/// Inserting a name adds exactly that name to those present.
proof fn lemma_insert_contains(before: Seq<Seq<char>>, p: int, x: Seq<char>)
    requires
        0 <= p <= before.len(),
    ensures
        forall|k: Seq<char>| before.insert(p, x).contains(k) <==> before.push(x).contains(k),
{
    let after = before.insert(p, x);
    let next = before.push(x);
    assert forall|k: Seq<char>| after.contains(k) <==> next.contains(k) by {
        if after.contains(k) {
            let j = choose|j: int| 0 <= j < after.len() && after[j] == k;
            if j < p {
                assert(next[j] == k);
            } else if j > p {
                assert(next[j - 1] == k);
            } else {
                assert(next[before.len() as int] == k);
            }
        }
        if next.contains(k) {
            let j = choose|j: int| 0 <= j < next.len() && next[j] == k;
            if j < before.len() {
                if j < p {
                    assert(after[j] == k);
                } else {
                    assert(after[j + 1] == k);
                }
            } else {
                assert(after[p] == k);
            }
        }
    }
}

/// A name is in a sequence with one more name at its end exactly when it is
/// that name or was there before.
proof fn lemma_push_contains(s: Seq<Seq<char>>, x: Seq<char>)
    ensures
        forall|k: Seq<char>| #[trigger] s.push(x).contains(k) <==> (s.contains(k) || k == x),
{
    assert forall|k: Seq<char>| #[trigger] s.push(x).contains(k) <==> (s.contains(k) || k == x) by {
        if s.contains(k) {
            let j = choose|j: int| 0 <= j < s.len() && s[j] == k;
            assert(s.push(x)[j] == k);
        }
        if k == x {
            assert(s.push(x)[s.len() as int] == k);
        }
        if s.push(x).contains(k) {
            let j = choose|j: int| 0 <= j < s.len() + 1 && s.push(x)[j] == k;
            if j < s.len() {
                assert(s[j] == k);
            }
        }
    }
}

/// Sorts names into the order of [`name_le`], keeping each of them.
pub fn sort_names(v: Vec<String>) -> (r: Vec<String>)
    ensures
        names_sorted(name_views(r@)),
        r.len() == v.len(),
        forall|k: Seq<char>| name_views(r@).contains(k) <==> name_views(v@).contains(k),
{
    let mut out: Vec<String> = Vec::new();
    let mut i: usize = 0;
    while i < v.len()
        invariant
            i <= v.len(),
            out.len() == i,
            names_sorted(name_views(out@)),
            forall|k: Seq<char>| name_views(out@).contains(k) <==> name_views(v@.subrange(0, i as int)).contains(k),
        decreases v.len() - i,
    {
        let x = v[i].clone();
        let mut p: usize = 0;
        while p < out.len() && !name_le_exec(&x, &out[p])
            invariant
                p <= out.len(),
                p > 0 ==> !name_le(x@, out[p - 1]@),
            decreases out.len() - p,
        {
            p = p + 1;
        }
        let ghost before = name_views(out@);
        assert(forall|k: Seq<char>| before.contains(k) <==> name_views(v@.subrange(0, i as int)).contains(k));
        proof {
            if p > 0 {
                lemma_name_le_total(x@, out[p - 1]@);
                assert(before[p - 1] == out[p - 1]@);
            }
            if p < out.len() {
                assert(before[p as int] == out[p as int]@);
            }
        }
        out.insert(p, x);
        proof {
            lemma_insert_sorted(before, p as int, x@);
            lemma_insert_contains(before, p as int, x@);
            assert(name_views(out@) =~= before.insert(p as int, x@));
            let prev = name_views(v@.subrange(0, i as int));
            assert(name_views(v@.subrange(0, i + 1)) =~= prev.push(x@));
            lemma_push_contains(before, x@);
            lemma_push_contains(prev, x@);
            assert forall|k: Seq<char>| name_views(out@).contains(k) <==> name_views(v@.subrange(0, i + 1)).contains(k) by {
                assert(name_views(out@).contains(k) <==> before.insert(p as int, x@).contains(k));
                assert(before.contains(k) <==> prev.contains(k));
                assert(before.push(x@).contains(k) <==> (before.contains(k) || k == x@));
                assert(prev.push(x@).contains(k) <==> (prev.contains(k) || k == x@));
            }
        }
        i = i + 1;
    }
    assert(v@.subrange(0, v.len() as int) =~= v@);
    out
}

} // verus!
