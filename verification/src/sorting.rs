//! Ordering byte strings and sorting entries by a 32-byte key.
use vstd::prelude::*;
use vstd::multiset::Multiset;

verus! {

/// The lexicographic order of byte strings.
pub open spec fn lex_le(a: Seq<u8>, b: Seq<u8>) -> bool
    decreases a.len(),
{
    if a.len() == 0 {
        true
    } else if b.len() == 0 {
        false
    } else if a[0] != b[0] {
        a[0] < b[0]
    } else {
        lex_le(a.drop_first(), b.drop_first())
    }
}

/// The lexicographic order is transitive.
pub proof fn lemma_lex_le_transitive(a: Seq<u8>, b: Seq<u8>, c: Seq<u8>)
    requires
        lex_le(a, b),
        lex_le(b, c),
    ensures
        lex_le(a, c),
    decreases a.len(),
{
    if a.len() > 0 && b.len() > 0 && c.len() > 0 && a[0] == b[0] && b[0] == c[0] {
        lemma_lex_le_transitive(a.drop_first(), b.drop_first(), c.drop_first());
    }
}

/// Of two byte strings, one is at most the other.
pub proof fn lemma_lex_le_total(a: Seq<u8>, b: Seq<u8>)
    ensures
        lex_le(a, b) || lex_le(b, a),
    decreases a.len(),
{
    if a.len() > 0 && b.len() > 0 && a[0] == b[0] {
        lemma_lex_le_total(a.drop_first(), b.drop_first());
    }
}

/// Whether `a` is at most `b` in the lexicographic order.
pub fn bytes_le(a: &[u8; 32], b: &[u8; 32]) -> (r: bool)
    ensures
        r == lex_le(a@, b@),
{
    let mut i: usize = 0;
    assert(a@.subrange(0, 32) =~= a@);
    assert(b@.subrange(0, 32) =~= b@);
    while i < 32
        invariant
            0 <= i <= 32,
            a@.len() == 32,
            b@.len() == 32,
            lex_le(a@, b@) == lex_le(a@.subrange(i as int, 32), b@.subrange(i as int, 32)),
        decreases 32 - i,
    {
        proof {
            let sa = a@.subrange(i as int, 32);
            let sb = b@.subrange(i as int, 32);
            assert(sa.drop_first() =~= a@.subrange(i + 1, 32));
            assert(sb.drop_first() =~= b@.subrange(i + 1, 32));
        }
        if a[i] != b[i] {
            return a[i] < b[i];
        }
        i = i + 1;
    }
    assert(a@.subrange(32, 32).len() == 0);
    true
}

/// Entries ordered by the lexicographic order of their keys.
pub open spec fn sorted_by_key<V>(s: Seq<([u8; 32], V)>) -> bool {
    forall|i: int, j: int| 0 <= i < j < s.len() ==> lex_le(#[trigger] s[i].0@, #[trigger] s[j].0@)
}

/// Sorts entries by the lexicographic order of their keys, keeping every entry.
pub fn sort_by_key<V>(entries: Vec<([u8; 32], V)>) -> (r: Vec<([u8; 32], V)>)
    ensures
        r@.to_multiset() == entries@.to_multiset(),
        sorted_by_key(r@),
{
    broadcast use vstd::seq_lib::to_multiset_insert;
    broadcast use vstd::seq_lib::to_multiset_remove;

    let ghost all = entries@;
    let mut rest = entries;
    let mut out: Vec<([u8; 32], V)> = Vec::new();
    let mut n: usize = 0;
    let total = rest.len();
    proof {
        broadcast use vstd::seq_lib::group_to_multiset_ensures;
        assert(all.subrange(0, 0) =~= Seq::<([u8; 32], V)>::empty());
        assert(out@ =~= Seq::<([u8; 32], V)>::empty());
        assert(out@.to_multiset() =~= Multiset::<([u8; 32], V)>::empty());
        assert(all.subrange(0, 0).to_multiset() =~= Multiset::<([u8; 32], V)>::empty());
    }
    while rest.len() > 0
        invariant
            total == all.len(),
            0 <= n <= all.len(),
            rest@ == all.subrange(n as int, all.len() as int),
            out@.to_multiset() == all.subrange(0, n as int).to_multiset(),
            sorted_by_key(out@),
        decreases rest@.len(),
    {
        let e = rest.remove(0);
        proof {
            assert(e == all[n as int]);
            assert(all.subrange(0, n + 1) =~= all.subrange(0, n as int).push(e));
            vstd::seq_lib::to_multiset_build(all.subrange(0, n as int), e);
        }
        let mut p: usize = 0;
        while p < out.len() && bytes_le(&out[p].0, &e.0)
            invariant
                0 <= p <= out@.len(),
                forall|k: int| 0 <= k < p ==> lex_le(#[trigger] out@[k].0@, e.0@),
            decreases out@.len() - p,
        {
            p = p + 1;
        }
        let ghost before = out@;
        proof {
            if p < before.len() {
                assert(!lex_le(before[p as int].0@, e.0@));
                lemma_lex_le_total(before[p as int].0@, e.0@);
            }
        }
        out.insert(p, e);
        proof {
            assert(out@ == before.insert(p as int, e));
            vstd::seq_lib::to_multiset_insert(before, p as int, e);
            assert(out@.to_multiset() == before.to_multiset().insert(e));
            assert(out@.to_multiset() == all.subrange(0, n + 1).to_multiset());
            assert forall|i: int, j: int| 0 <= i < j < out@.len() implies lex_le(
                #[trigger] out@[i].0@,
                #[trigger] out@[j].0@,
            ) by {
                if j < p {
                    assert(out@[i] == before[i] && out@[j] == before[j]);
                } else if j == p {
                    assert(out@[i] == before[i]);
                } else if i < p {
                    assert(out@[i] == before[i] && out@[j] == before[j - 1]);
                    if p < before.len() {
                        assert(lex_le(e.0@, before[p as int].0@));
                        if j - 1 > p {
                            assert(lex_le(before[p as int].0@, before[j - 1].0@));
                            lemma_lex_le_transitive(e.0@, before[p as int].0@, before[j - 1].0@);
                        }
                        lemma_lex_le_transitive(before[i].0@, e.0@, before[j - 1].0@);
                    }
                } else if i == p {
                    assert(out@[j] == before[j - 1]);
                    assert(lex_le(e.0@, before[p as int].0@));
                    if j - 1 > p {
                        assert(lex_le(before[p as int].0@, before[j - 1].0@));
                        lemma_lex_le_transitive(e.0@, before[p as int].0@, before[j - 1].0@);
                    }
                } else {
                    assert(out@[i] == before[i - 1] && out@[j] == before[j - 1]);
                }
            }
        }
        n = n + 1;
        proof {
            assert(rest@ =~= all.subrange(n as int, all.len() as int));
        }
    }
    proof {
        assert(all.subrange(0, n as int) =~= all);
    }
    out
}

} // verus!
