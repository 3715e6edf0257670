use vstd::prelude::*;
use vstd::string::StrSliceExecFns;

verus! {

/// Lexicographic order of character sequences from position `i` on, comparing
/// characters by code point (the order of `str`, whose UTF-8 bytes keep it).
pub open spec fn lex_less_from(a: Seq<char>, b: Seq<char>, i: int) -> bool
    decreases a.len() - i,
{
    if i >= a.len() {
        i < b.len()
    } else if i >= b.len() {
        false
    } else if a[i] != b[i] {
        (a[i] as int) < (b[i] as int)
    } else {
        lex_less_from(a, b, i + 1)
    }
}

pub open spec fn lex_less(a: Seq<char>, b: Seq<char>) -> bool {
    lex_less_from(a, b, 0)
}

/// Each element is strictly less than every later one.
pub open spec fn strictly_sorted(s: Seq<Seq<char>>) -> bool {
    forall|i: int, j: int| 0 <= i < j < s.len() ==> lex_less(s[i], s[j])
}

pub proof fn lemma_lex_transitive_from(a: Seq<char>, b: Seq<char>, c: Seq<char>, i: int)
    requires
        0 <= i,
        lex_less_from(a, b, i),
        lex_less_from(b, c, i),
    ensures
        lex_less_from(a, c, i),
    decreases a.len() - i,
{
    if i < a.len() && i < b.len() && i < c.len() && a[i] == b[i] && b[i] == c[i] {
        lemma_lex_transitive_from(a, b, c, i + 1);
    }
}

pub proof fn lemma_lex_total_from(a: Seq<char>, b: Seq<char>, i: int)
    requires
        0 <= i <= a.len(),
        i <= b.len(),
        a.subrange(0, i) == b.subrange(0, i),
        !lex_less_from(a, b, i),
        !lex_less_from(b, a, i),
    ensures
        a == b,
    decreases a.len() - i,
{
    if i < a.len() {
        assert(i < b.len());
        assert(a[i] as int == b[i] as int);
        assert(a.subrange(0, i + 1) =~= a.subrange(0, i).push(a[i]));
        assert(b.subrange(0, i + 1) =~= b.subrange(0, i).push(b[i]));
        lemma_lex_total_from(a, b, i + 1);
    } else {
        assert(a =~= a.subrange(0, i));
        assert(b =~= b.subrange(0, i));
    }
}

/// Lexicographic order is transitive.
pub proof fn lemma_lex_transitive(a: Seq<char>, b: Seq<char>, c: Seq<char>)
    requires
        lex_less(a, b),
        lex_less(b, c),
    ensures
        lex_less(a, c),
{
    lemma_lex_transitive_from(a, b, c, 0);
}

/// Of two different sequences one is lexicographically less than the other.
pub proof fn lemma_lex_total(a: Seq<char>, b: Seq<char>)
    requires
        a != b,
    ensures
        lex_less(a, b) || lex_less(b, a),
{
    assert(a.subrange(0, 0) =~= b.subrange(0, 0));
    if !lex_less(a, b) && !lex_less(b, a) {
        lemma_lex_total_from(a, b, 0);
    }
}

/// Whether `a` comes before `b` in lexicographic order.
pub fn str_less(a: &str, b: &str) -> (r: bool)
    ensures
        r == lex_less(a@, b@),
{
    let n = a.unicode_len();
    let m = b.unicode_len();
    let mut i: usize = 0;
    loop
        invariant
            n == a@.len(),
            m == b@.len(),
            i <= n,
            i <= m,
            lex_less(a@, b@) == lex_less_from(a@, b@, i as int),
        decreases n - i,
    {
        if i >= n {
            return i < m;
        }
        if i >= m {
            return false;
        }
        let x = a.get_char(i);
        let y = b.get_char(i);
        if x != y {
            return (x as u32) < (y as u32);
        }
        i = i + 1;
    }
}

/// The strings of `names`, which are all different, in lexicographic order.
pub fn sorted_names(names: &Vec<String>) -> (r: Vec<String>)
    requires
        forall|i: int, j: int| 0 <= i < j < names@.len() ==> names@[i]@ != names@[j]@,
    ensures
        r@.len() == names@.len(),
        strictly_sorted(r@.map_values(|s: String| s@)),
        forall|i: int| 0 <= i < names@.len() ==> r@.map_values(|s: String| s@).contains(names@[i]@),
        forall|q: int|
            0 <= q < r@.len() ==> names@.map_values(|s: String| s@).contains(#[trigger] r@[q]@),
{
    let mut out: Vec<String> = Vec::new();
    let mut k: usize = 0;
    while k < names.len()
        invariant
            k <= names@.len(),
            out@.len() == k,
            forall|i: int, j: int| 0 <= i < j < names@.len() ==> names@[i]@ != names@[j]@,
            strictly_sorted(out@.map_values(|s: String| s@)),
            forall|i: int| 0 <= i < k ==> out@.map_values(|s: String| s@).contains(names@[i]@),
            forall|q: int|
                0 <= q < out@.len() ==> exists|i: int|
                    0 <= i < k && (#[trigger] out@[q])@ == (#[trigger] names@[i])@,
        decreases names@.len() - k,
    {
        let name = names[k].clone();
        let ghost view_before = out@.map_values(|s: String| s@);
        let ghost old_out = out@;
        let mut p: usize = 0;
        while p < out.len() && !str_less(name.as_str(), out[p].as_str())
            invariant
                p <= out@.len(),
                view_before == out@.map_values(|s: String| s@),
                forall|q: int| 0 <= q < p ==> !lex_less(name@, out@[q]@),
            decreases out@.len() - p,
        {
            p = p + 1;
        }
        proof {
            assert forall|q: int| 0 <= q < p implies lex_less(view_before[q], name@) by {
                let i = choose|i: int| 0 <= i < k && out@[q]@ == (#[trigger] names@[i])@;
                assert(names@[i]@ != names@[k as int]@);
                lemma_lex_total(out@[q]@, name@);
            }
            assert forall|q: int| p <= q < out@.len() implies lex_less(name@, view_before[q]) by {
                if q > p {
                    lemma_lex_transitive(name@, view_before[p as int], view_before[q]);
                }
            }
        }
        out.insert(p, name);
        proof {
            let after = out@.map_values(|s: String| s@);
            assert(after =~= view_before.insert(p as int, name@));
            assert forall|i: int, j: int| 0 <= i < j < after.len() implies lex_less(
                after[i],
                after[j],
            ) by {
                if i < p && j > p {
                    lemma_lex_transitive(after[i], name@, after[j]);
                }
            }
            assert forall|i: int| 0 <= i < k + 1 implies after.contains(names@[i]@) by {
                if i < k {
                    let q = choose|q: int| 0 <= q < view_before.len() && view_before[q] == names@[i]@;
                    if q < p {
                        assert(after[q] == names@[i]@);
                    } else {
                        assert(after[q + 1] == names@[i]@);
                    }
                } else {
                    assert(after[p as int] == names@[i]@);
                }
            }
            assert forall|q: int| 0 <= q < out@.len() implies exists|i: int|
                0 <= i < k + 1 && (#[trigger] out@[q])@ == (#[trigger] names@[i])@ by {
                if q < p {
                    assert(out@[q]@ == view_before[q]);
                    let i = choose|i: int| 0 <= i < k && old_out[q]@ == (#[trigger] names@[i])@;
                    assert(out@[q]@ == names@[i]@);
                } else if q > p {
                    assert(out@[q]@ == view_before[q - 1]);
                    let i = choose|i: int| 0 <= i < k && old_out[q - 1]@ == (#[trigger] names@[i])@;
                    assert(out@[q]@ == names@[i]@);
                } else {
                    assert(out@[q]@ == names@[k as int]@);
                }
            }
        }
        k = k + 1;
    }
    assert forall|q: int| 0 <= q < out@.len() implies names@.map_values(|s: String| s@).contains(
        #[trigger] out@[q]@,
    ) by {
        let witness = out@[q];
        let i = choose|i: int| 0 <= i < k && (#[trigger] out@[q])@ == (#[trigger] names@[i])@;
        assert(names@.map_values(|s: String| s@)[i] == out@[q]@);
    }
    out
}

} // verus!
