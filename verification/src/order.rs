//! Lexicographic ordering of names by character code point, and sorting of
//! name vectors into ascending lexical order.

use vstd::prelude::*;
use vstd::string::*;

verus! {

/// Lexicographic "less than or equal" on character sequences, by code point.
/// For UTF-8 encoded names this order agrees with byte-wise comparison.
pub open spec fn lex_le(a: Seq<char>, b: Seq<char>) -> bool
    decreases a.len(),
{
    if a.len() == 0 {
        true
    } else if b.len() == 0 {
        false
    } else if (a[0] as u32) < (b[0] as u32) {
        true
    } else if (a[0] as u32) > (b[0] as u32) {
        false
    } else {
        lex_le(a.drop_first(), b.drop_first())
    }
}

/// Any two character sequences are comparable under `lex_le`.
pub proof fn lemma_lex_le_total(a: Seq<char>, b: Seq<char>)
    ensures
        lex_le(a, b) || lex_le(b, a),
    decreases a.len(),
{
    if a.len() != 0 && b.len() != 0 && (a[0] as u32) == (b[0] as u32) {
        lemma_lex_le_total(a.drop_first(), b.drop_first());
    }
}

/// `lex_le` is transitive.
pub proof fn lemma_lex_le_trans(a: Seq<char>, b: Seq<char>, c: Seq<char>)
    requires
        lex_le(a, b),
        lex_le(b, c),
    ensures
        lex_le(a, c),
    decreases a.len(),
{
    if a.len() != 0 && b.len() != 0 && c.len() != 0 && (a[0] as u32) == (b[0] as u32) && (
    b[0] as u32) == (c[0] as u32) {
        lemma_lex_le_trans(a.drop_first(), b.drop_first(), c.drop_first());
    }
}

/// The names in `s`, in ascending lexical order.
pub open spec fn sorted_lex(s: Seq<Seq<char>>) -> bool {
    forall|i: int, j: int| 0 <= i < j < s.len() ==> lex_le(s[i], s[j])
}

/// The views of the strings in `s`.
pub open spec fn names_of(s: Seq<String>) -> Seq<Seq<char>> {
    s.map_values(|x: String| x@)
}

/// Compares two names in lexicographic code-point order.
pub fn str_le(a: &str, b: &str) -> (r: bool)
    ensures
        r == lex_le(a@, b@),
{
    let alen = a.unicode_len();
    let blen = b.unicode_len();
    proof {
        assert(a@.skip(0) =~= a@);
        assert(b@.skip(0) =~= b@);
    }
    let mut i: usize = 0;
    while i < alen && i < blen
        invariant
            alen == a@.len(),
            blen == b@.len(),
            0 <= i <= alen,
            0 <= i <= blen,
            lex_le(a@, b@) == lex_le(a@.skip(i as int), b@.skip(i as int)),
        decreases alen - i,
    {
        let ca = a.get_char(i);
        let cb = b.get_char(i);
        if (ca as u32) < (cb as u32) {
            return true;
        }
        if (ca as u32) > (cb as u32) {
            return false;
        }
        proof {
            assert(a@.skip(i as int).drop_first() =~= a@.skip(i as int + 1));
            assert(b@.skip(i as int).drop_first() =~= b@.skip(i as int + 1));
        }
        i += 1;
    }
    i >= alen
}

/// Inserts `x` into a vector whose names are already in ascending lexical
/// order, keeping the order and adding exactly one occurrence of `x`.
fn insert_sorted(sorted: &Vec<String>, x: String) -> (r: Vec<String>)
    requires
        sorted_lex(names_of(sorted@)),
    ensures
        sorted_lex(names_of(r@)),
        names_of(r@).to_multiset() == names_of(sorted@).to_multiset().insert(x@),
{
    let n = sorted.len();
    let mut out: Vec<String> = Vec::new();
    let mut i: usize = 0;
    proof {
        assert(out@ =~= sorted@.take(0));
    }
    while i < n && str_le(sorted[i].as_str(), x.as_str())
        invariant
            n == sorted@.len(),
            0 <= i <= n,
            out@ == sorted@.take(i as int),
            forall|j: int| 0 <= j < i ==> lex_le(names_of(sorted@)[j], x@),
        decreases n - i,
    {
        out.push(sorted[i].clone());
        proof {
            assert(out@ =~= sorted@.take(i as int + 1));
        }
        i += 1;
    }
    proof {
        if i < n {
            lemma_lex_le_total(names_of(sorted@)[i as int], x@);
        }
    }
    let ghost below: bool = forall|j: int| 0 <= j < i ==> lex_le(names_of(sorted@)[j], x@);
    let ghost above: bool = i < n ==> lex_le(x@, names_of(sorted@)[i as int]);
    out.push(x);
    let mut m = i;
    while m < n
        invariant
            n == sorted@.len(),
            0 <= i <= m <= n,
            out@ == sorted@.take(i as int).push(x) + sorted@.subrange(i as int, m as int),
        decreases n - m,
    {
        out.push(sorted[m].clone());
        proof {
            assert(out@ =~= sorted@.take(i as int).push(x) + sorted@.subrange(
                i as int,
                m as int + 1,
            ));
        }
        m += 1;
    }
    proof {
        assert(below);
        assert(above);
        assert(out@ =~= sorted@.insert(i as int, x));
        let ns = names_of(sorted@);
        let nr = names_of(out@);
        assert(nr =~= ns.insert(i as int, x@));
        vstd::seq_lib::to_multiset_insert(ns, i as int, x@);
        let k = i as int;
        assert forall|p: int, q: int| 0 <= p < q < nr.len() implies lex_le(nr[p], nr[q]) by {
            if q < k {
                assert(nr[p] == ns[p] && nr[q] == ns[q]);
            } else if p < k && q == k {
                assert(nr[p] == ns[p] && nr[q] == x@);
            } else if p < k && q > k {
                assert(nr[p] == ns[p] && nr[q] == ns[q - 1]);
                assert(lex_le(ns[p], ns[q - 1]));
            } else if p == k && q > k {
                assert(nr[p] == x@ && nr[q] == ns[q - 1]);
                if q - 1 > k {
                    lemma_lex_le_trans(x@, ns[k], ns[q - 1]);
                }
            } else {
                assert(nr[p] == ns[p - 1] && nr[q] == ns[q - 1]);
            }
        }
    }
    out
}

/// Reorders `names` into ascending lexical order; the result holds the same
/// names with the same multiplicities.
pub fn sort_names(names: Vec<String>) -> (r: Vec<String>)
    ensures
        sorted_lex(names_of(r@)),
        names_of(r@).to_multiset() == names_of(names@).to_multiset(),
{
    broadcast use vstd::seq_lib::group_to_multiset_ensures;

    let mut out: Vec<String> = Vec::new();
    let mut i: usize = 0;
    proof {
        assert(names_of(out@) =~= names_of(names@.take(0)));
    }
    while i < names.len()
        invariant
            0 <= i <= names@.len(),
            sorted_lex(names_of(out@)),
            names_of(out@).to_multiset() == names_of(names@.take(i as int)).to_multiset(),
        decreases names@.len() - i,
    {
        broadcast use vstd::seq_lib::group_to_multiset_ensures;

        out = insert_sorted(&out, names[i].clone());
        proof {
            assert(names_of(names@.take(i as int + 1)) =~= names_of(names@.take(i as int)).push(
                names@[i as int]@,
            ));
        }
        i += 1;
    }
    proof {
        assert(names@.take(names@.len() as int) =~= names@);
    }
    out
}

} // verus!
