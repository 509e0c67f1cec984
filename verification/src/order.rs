use vstd::prelude::*;
use vstd::string::StrSliceExecFns;

verus! {

/// Lexicographic order on character sequences, comparing from position `i`
/// on: the first differing character decides by code point, and a sequence
/// comes before every longer sequence it is a prefix of.
pub open spec fn lex_le_from(a: Seq<char>, b: Seq<char>, i: int) -> bool
    decreases a.len() - i,
{
    if i >= a.len() {
        true
    } else if i >= b.len() {
        false
    } else if a[i] != b[i] {
        (a[i] as u32) < (b[i] as u32)
    } else {
        lex_le_from(a, b, i + 1)
    }
}

/// `a` sorts before or equal to `b`. For strings this is the order of their
/// UTF-8 bytes, which is how `String` compares.
pub open spec fn lex_le(a: Seq<char>, b: Seq<char>) -> bool {
    lex_le_from(a, b, 0)
}

/// `a` sorts strictly before `b`.
pub open spec fn lex_lt(a: Seq<char>, b: Seq<char>) -> bool {
    !lex_le(b, a)
}

/// The character sequences of a list of strings.
pub open spec fn views(v: Seq<String>) -> Seq<Seq<char>> {
    v.map_values(|s: String| s@)
}

/// Ascending order.
pub open spec fn is_sorted(s: Seq<Seq<char>>) -> bool {
    forall|i: int, j: int| 0 <= i <= j < s.len() ==> lex_le(#[trigger] s[i], #[trigger] s[j])
}

proof fn lemma_lex_total_from(a: Seq<char>, b: Seq<char>, i: int)
    requires
        0 <= i,
    ensures
        lex_le_from(a, b, i) || lex_le_from(b, a, i),
    decreases a.len() - i,
{
    if i < a.len() && i < b.len() {
        if a[i] == b[i] {
            lemma_lex_total_from(a, b, i + 1);
        } else {
            lemma_char_code_injective(a[i], b[i]);
        }
    }
}

proof fn lemma_char_code_injective(c: char, d: char)
    requires
        c != d,
    ensures
        (c as u32) != (d as u32),
{
}

proof fn lemma_lex_trans_from(a: Seq<char>, b: Seq<char>, c: Seq<char>, i: int)
    requires
        0 <= i,
        lex_le_from(a, b, i),
        lex_le_from(b, c, i),
    ensures
        lex_le_from(a, c, i),
    decreases a.len() - i,
{
    if i < a.len() && i < b.len() && i < c.len() && a[i] == b[i] && b[i] == c[i] {
        lemma_lex_trans_from(a, b, c, i + 1);
    }
}

proof fn lemma_lex_antisym_from(a: Seq<char>, b: Seq<char>, i: int)
    requires
        0 <= i <= a.len(),
        i <= b.len(),
        a.subrange(0, i) == b.subrange(0, i),
        lex_le_from(a, b, i),
        lex_le_from(b, a, i),
    ensures
        a == b,
    decreases a.len() - i,
{
    if i < a.len() && i < b.len() {
        assert(a[i] == b[i]);
        assert(a.subrange(0, i + 1) =~= a.subrange(0, i).push(a[i]));
        assert(b.subrange(0, i + 1) =~= b.subrange(0, i).push(b[i]));
        lemma_lex_antisym_from(a, b, i + 1);
    } else {
        assert(a =~= a.subrange(0, i));
        assert(b =~= b.subrange(0, i));
    }
}

/// The order is total, transitive and antisymmetric.
pub proof fn lemma_lex_order(a: Seq<char>, b: Seq<char>, c: Seq<char>)
    ensures
        lex_le(a, b) || lex_le(b, a),
        lex_le(a, b) && lex_le(b, c) ==> lex_le(a, c),
        lex_le(a, b) && lex_le(b, a) ==> a == b,
        lex_le(a, a),
{
    lemma_lex_total_from(a, b, 0);
    lemma_lex_total_from(a, a, 0);
    if lex_le(a, b) && lex_le(b, c) {
        lemma_lex_trans_from(a, b, c, 0);
    }
    if lex_le(a, b) && lex_le(b, a) {
        assert(a.subrange(0, 0) =~= b.subrange(0, 0));
        lemma_lex_antisym_from(a, b, 0);
    }
}

/// Whether `a` sorts strictly before `b`.
pub fn str_less(a: &str, b: &str) -> (lt: bool)
    ensures
        lt == lex_lt(a@, b@),
{
    let na = a.unicode_len();
    let nb = b.unicode_len();
    let mut i: usize = 0;
    while i < na && i < nb
        invariant
            na == a@.len(),
            nb == b@.len(),
            i <= na,
            i <= nb,
            lex_le(b@, a@) == lex_le_from(b@, a@, i as int),
        decreases na - i,
    {
        let ca = a.get_char(i);
        let cb = b.get_char(i);
        if ca != cb {
            return (ca as u32) < (cb as u32);
        }
        i = i + 1;
    }
    na < nb
}

/// `s` in ascending order.
pub fn sort_strings(s: &Vec<String>) -> (sorted: Vec<String>)
    ensures
        is_sorted(views(sorted@)),
        views(sorted@).to_multiset() == views(s@).to_multiset(),
{
    let mut out: Vec<String> = Vec::new();
    let mut i: usize = 0;
    assert(views(out@) =~= views(s@.take(0)));
    while i < s.len()
        invariant
            i <= s@.len(),
            is_sorted(views(out@)),
            views(out@).to_multiset() == views(s@.take(i as int)).to_multiset(),
        decreases s@.len() - i,
    {
        let x = s[i].clone();
        let mut p: usize = 0;
        while p < out.len() && !str_less(x.as_str(), out[p].as_str())
            invariant
                p <= out@.len(),
                forall|j: int| 0 <= j < p ==> lex_le(#[trigger] views(out@)[j], x@),
            decreases out@.len() - p,
        {
            proof {
                lemma_lex_order(x@, out@[p as int]@, x@);
            }
            p = p + 1;
        }
        let ghost before = out@;
        proof {
            if p < before.len() {
                assert(views(before)[p as int] == before[p as int]@);
                lemma_lex_order(before[p as int]@, x@, x@);
                assert(lex_le(x@, before[p as int]@));
            }
            assert forall|j: int| p <= j < before.len() implies lex_le(x@, #[trigger] views(before)[j]) by {
                assert(lex_le(views(before)[p as int], views(before)[j]));
                lemma_lex_order(x@, views(before)[p as int], views(before)[j]);
            }
        }
        out.insert(p, x);
        proof {
            let vb = views(before);
            assert(views(out@) =~= vb.insert(p as int, x@));
            assert forall|a: int, b: int| 0 <= a <= b < views(out@).len() implies lex_le(
                #[trigger] views(out@)[a],
                #[trigger] views(out@)[b],
            ) by {
                lemma_lex_order(views(out@)[a], views(out@)[a], views(out@)[a]);
                if a < p && b > p {
                    lemma_lex_order(vb[a], x@, vb[b - 1]);
                }
            }
            assert(s@.take(i + 1) =~= s@.take(i as int).push(s@[i as int]));
            assert(views(s@.take(i + 1)) =~= views(s@.take(i as int)).push(x@));
            vstd::seq_lib::to_multiset_insert(vb, p as int, x@);
            vstd::seq_lib::to_multiset_build(views(s@.take(i as int)), x@);
        }
        i = i + 1;
    }
    assert(s@.take(s@.len() as int) =~= s@);
    out
}

/// Entry `a` comes before entry `b` when it was played later, or at the
/// same time and listed earlier.
pub open spec fn played_before(played: Seq<i128>, a: int, b: int) -> bool {
    played[a] > played[b] || (played[a] == played[b] && a < b)
}

/// `order` lists every index of `played` once, most recently played first,
/// entries played at the same time in their listed order.
pub open spec fn is_recent_first(played: Seq<i128>, order: Seq<usize>) -> bool {
    &&& order.len() == played.len()
    &&& forall|p: int| 0 <= p < order.len() ==> #[trigger] order[p] < played.len()
    &&& forall|k: usize| k < played.len() ==> #[trigger] order.contains(k)
    &&& forall|p: int, q: int| 0 <= p < q < order.len() ==> played_before(played, #[trigger] order[p] as int, #[trigger] order[q] as int)
}

/// The indices of `played` (times at which saved worlds were last played),
/// most recent first; a stable order, so ties keep their listed order.
pub fn most_recent_first(played: &Vec<i128>) -> (order: Vec<usize>)
    ensures
        is_recent_first(played@, order@),
{
    let mut order: Vec<usize> = Vec::new();
    let n = played.len();
    let mut i: usize = 0;
    while i < n
        invariant
            n == played@.len(),
            i <= n,
            order@.len() == i,
            forall|p: int| 0 <= p < order@.len() ==> #[trigger] order@[p] < i,
            forall|k: usize| k < i ==> #[trigger] order@.contains(k),
            forall|p: int, q: int| 0 <= p < q < order@.len() ==> played_before(played@, #[trigger] order@[p] as int, #[trigger] order@[q] as int),
        decreases n - i,
    {
        let key = played[i];
        let mut pos: usize = 0;
        while pos < order.len() && played[order[pos]] >= key
            invariant
                n == played@.len(),
                i < n,
                key == played@[i as int],
                order@.len() == i,
                pos <= order@.len(),
                forall|p: int| 0 <= p < order@.len() ==> #[trigger] order@[p] < i,
                forall|p: int| 0 <= p < pos ==> played@[#[trigger] order@[p] as int] >= key,
            decreases order@.len() - pos,
        {
            pos = pos + 1;
        }
        let ghost old_order = order@;
        proof {
            assert forall|q: int| pos <= q < old_order.len() implies played@[#[trigger] old_order[q] as int] < key by {
                if q > pos {
                    assert(played_before(played@, old_order[pos as int] as int, old_order[q] as int));
                }
            }
        }
        order.insert(pos, i);
        proof {
            assert(order@ == old_order.insert(pos as int, i));
            assert forall|p: int, q: int| 0 <= p < q < order@.len() implies played_before(played@, #[trigger] order@[p] as int, #[trigger] order@[q] as int) by {
                if q < pos {
                    assert(order@[p] == old_order[p] && order@[q] == old_order[q]);
                } else if q == pos {
                    assert(order@[p] == old_order[p]);
                } else if p < pos {
                    assert(order@[p] == old_order[p] && order@[q] == old_order[q - 1]);
                } else if p == pos {
                    assert(order@[q] == old_order[q - 1]);
                } else {
                    assert(order@[p] == old_order[p - 1] && order@[q] == old_order[q - 1]);
                }
            }
            assert forall|k: usize| k < i + 1 implies #[trigger] order@.contains(k) by {
                if k == i {
                    assert(order@[pos as int] == i);
                } else {
                    assert(old_order.contains(k));
                    let p = choose|p: int| 0 <= p < old_order.len() && old_order[p] == k;
                    if p < pos {
                        assert(order@[p] == k);
                    } else {
                        assert(order@[p + 1] == k);
                    }
                }
            }
            assert forall|p: int| 0 <= p < order@.len() implies #[trigger] order@[p] < i + 1 by {
                if p < pos {
                    assert(order@[p] == old_order[p]);
                } else if p > pos {
                    assert(order@[p] == old_order[p - 1]);
                }
            }
        }
        i = i + 1;
    }
    order
}

} // verus!
