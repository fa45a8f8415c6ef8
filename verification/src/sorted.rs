//! Runs of key and value pairs in the strict order of their keys, and the
//! maps that they stand for.
use crate::order::{
    lemma_order_agrees_with_equality, lemma_order_is_total, lemma_order_is_transitive, tree_lt,
    Tree,
};
use vstd::prelude::*;

verus! {

/// The keys stand in strictly rising order.
pub open spec fn sorted_pairs(p: Seq<(Tree, Tree)>) -> bool {
    forall|i: int, j: int| 0 <= i < j < p.len() ==> tree_lt(#[trigger] p[i].0, #[trigger] p[j].0)
}

/// Some pair of the run has the key `k`.
pub open spec fn has_key(p: Seq<(Tree, Tree)>, k: Tree) -> bool {
    exists|i: int| 0 <= i < p.len() && (#[trigger] p[i]).0 == k
}

/// The position of a pair with the key `k`.
pub open spec fn place_of(p: Seq<(Tree, Tree)>, k: Tree) -> int {
    choose|i: int| 0 <= i < p.len() && (#[trigger] p[i]).0 == k
}

/// The map that the run stands for.
pub open spec fn pairs_map(p: Seq<(Tree, Tree)>) -> Map<Tree, Tree> {
    Map::new(|k: Tree| has_key(p, k), |k: Tree| p[place_of(p, k)].1)
}

/// In a sorted run no key occurs twice.
pub proof fn lemma_keys_differ(p: Seq<(Tree, Tree)>, i: int, j: int)
    requires
        sorted_pairs(p),
        0 <= i < p.len(),
        0 <= j < p.len(),
        p[i].0 == p[j].0,
    ensures
        i == j,
{
    lemma_order_agrees_with_equality(p[i].0, p[j].0);
    if i < j {
        assert(tree_lt(p[i].0, p[j].0));
    } else if j < i {
        assert(tree_lt(p[j].0, p[i].0));
        lemma_order_agrees_with_equality(p[j].0, p[i].0);
    }
}

/// The map of a sorted run holds each of its pairs.
pub proof fn lemma_pair_is_kept(p: Seq<(Tree, Tree)>, i: int)
    requires
        sorted_pairs(p),
        0 <= i < p.len(),
    ensures
        pairs_map(p).dom().contains(p[i].0),
        pairs_map(p)[p[i].0] == p[i].1,
{
    let k = p[i].0;
    assert(has_key(p, k));
    lemma_keys_differ(p, i, place_of(p, k));
}

/// A key that no pair of the run has is not in its map.
pub proof fn lemma_no_key_where_all_differ(p: Seq<(Tree, Tree)>, k: Tree)
    requires
        forall|i: int| 0 <= i < p.len() ==> (#[trigger] p[i]).0 != k,
    ensures
        !pairs_map(p).dom().contains(k),
{
}

/// Putting a new key at its place in a sorted run keeps the run sorted and
/// adds the pair to its map.
pub proof fn lemma_put_new(p: Seq<(Tree, Tree)>, at: int, k: Tree, v: Tree)
    requires
        sorted_pairs(p),
        0 <= at <= p.len(),
        forall|j: int| 0 <= j < at ==> tree_lt((#[trigger] p[j]).0, k),
        at < p.len() ==> tree_lt(k, p[at].0),
    ensures
        sorted_pairs(p.insert(at, (k, v))),
        pairs_map(p.insert(at, (k, v))) == pairs_map(p).insert(k, v),
{
    let q = p.insert(at, (k, v));
    assert forall|j: int| at <= j < p.len() implies tree_lt(k, (#[trigger] p[j]).0) by {
        if at < j {
            assert(tree_lt(p[at].0, p[j].0));
            lemma_order_is_transitive(k, p[at].0, p[j].0);
        }
    }
    assert forall|i: int, j: int| 0 <= i < j < q.len() implies tree_lt(
        #[trigger] q[i].0,
        #[trigger] q[j].0,
    ) by {
        let a = if i < at {
            i
        } else {
            i - 1
        };
        let b = if j < at {
            j
        } else {
            j - 1
        };
        if i != at && j != at {
            assert(q[i] == p[a]);
            assert(q[j] == p[b]);
            assert(tree_lt(p[a].0, p[b].0));
        } else if i == at {
            assert(q[j] == p[b]);
        } else {
            assert(q[i] == p[a]);
        }
    }
    assert forall|x: Tree| #[trigger]
        pairs_map(q).dom().contains(x) == pairs_map(p).insert(k, v).dom().contains(x) by {
        if has_key(q, x) {
            let i = place_of(q, x);
            if i < at {
                assert(q[i] == p[i]);
            } else if i > at {
                assert(q[i] == p[i - 1]);
            }
        }
        if has_key(p, x) {
            let i = place_of(p, x);
            if i < at {
                assert(q[i] == p[i]);
            } else {
                assert(q[i + 1] == p[i]);
            }
        }
        if x == k {
            assert(q[at].0 == k);
        }
    }
    assert forall|x: Tree| #[trigger]
        pairs_map(q).dom().contains(x) implies pairs_map(q)[x] == pairs_map(p).insert(k, v)[x] by {
        let i = place_of(q, x);
        lemma_pair_is_kept(q, i);
        if i < at {
            assert(q[i] == p[i]);
            lemma_pair_is_kept(p, i);
            lemma_order_agrees_with_equality(p[i].0, k);
        } else if i > at {
            assert(q[i] == p[i - 1]);
            lemma_pair_is_kept(p, i - 1);
            lemma_order_is_total(k, p[i - 1].0);
        }
    }
    assert(pairs_map(q) =~= pairs_map(p).insert(k, v));
}

/// Putting a value under a key that a sorted run already holds keeps the
/// run sorted and replaces the value in its map.
pub proof fn lemma_put_again(p: Seq<(Tree, Tree)>, at: int, v: Tree)
    requires
        sorted_pairs(p),
        0 <= at < p.len(),
    ensures
        sorted_pairs(p.update(at, (p[at].0, v))),
        pairs_map(p.update(at, (p[at].0, v))) == pairs_map(p).insert(p[at].0, v),
{
    let k = p[at].0;
    let q = p.update(at, (k, v));
    assert forall|i: int, j: int| 0 <= i < j < q.len() implies tree_lt(
        #[trigger] q[i].0,
        #[trigger] q[j].0,
    ) by {
        assert(q[i].0 == p[i].0);
        assert(q[j].0 == p[j].0);
    }
    assert forall|x: Tree| #[trigger]
        pairs_map(q).dom().contains(x) == pairs_map(p).insert(k, v).dom().contains(x) by {
        if has_key(q, x) {
            let i = place_of(q, x);
            assert(q[i].0 == p[i].0);
        }
        if has_key(p, x) {
            let i = place_of(p, x);
            assert(q[i].0 == p[i].0);
        }
        if x == k {
            assert(q[at].0 == k);
        }
    }
    assert forall|x: Tree| #[trigger]
        pairs_map(q).dom().contains(x) implies pairs_map(q)[x] == pairs_map(p).insert(k, v)[x] by {
        let i = place_of(q, x);
        lemma_pair_is_kept(q, i);
        assert(q[i].0 == p[i].0);
        if i != at {
            lemma_pair_is_kept(p, i);
            if p[i].0 == k {
                lemma_keys_differ(p, i, at);
            }
        }
    }
    assert(pairs_map(q) =~= pairs_map(p).insert(k, v));
}

proof fn lemma_keys_agree_below(p: Seq<(Tree, Tree)>, q: Seq<(Tree, Tree)>, i: int)
    requires
        sorted_pairs(p),
        sorted_pairs(q),
        pairs_map(p) == pairs_map(q),
        0 <= i <= p.len(),
        i <= q.len(),
    ensures
        forall|j: int| 0 <= j < i ==> (#[trigger] p[j]).0 == q[j].0,
    decreases i,
{
    if i > 0 {
        let t = i - 1;
        lemma_keys_agree_below(p, q, t);
        lemma_pair_is_kept(p, t);
        lemma_pair_is_kept(q, t);
        assert(has_key(q, p[t].0));
        assert(has_key(p, q[t].0));
        let m = place_of(q, p[t].0);
        let n = place_of(p, q[t].0);
        if m < t {
            assert(p[m].0 == q[m].0);
            lemma_keys_differ(p, m, t);
        }
        if n < t {
            assert(p[n].0 == q[n].0);
            lemma_keys_differ(q, n, t);
        }
        if m > t && n > t {
            assert(tree_lt(q[t].0, q[m].0));
            assert(tree_lt(p[t].0, p[n].0));
            lemma_order_is_total(p[t].0, q[t].0);
        }
        assert(p[t].0 == q[t].0);
    }
}

proof fn lemma_no_shorter_run(p: Seq<(Tree, Tree)>, q: Seq<(Tree, Tree)>)
    requires
        sorted_pairs(p),
        sorted_pairs(q),
        pairs_map(p) == pairs_map(q),
    ensures
        p.len() >= q.len(),
{
    if p.len() < q.len() {
        let n = p.len() as int;
        lemma_keys_agree_below(p, q, n);
        lemma_pair_is_kept(q, n);
        assert(has_key(p, q[n].0));
        let m = place_of(p, q[n].0);
        assert(p[m].0 == q[m].0);
        lemma_keys_differ(q, m, n);
    }
}

/// Two sorted runs that stand for the same map are the same run: the order
/// of the keys leaves no choice.
pub proof fn lemma_sorted_run_is_unique(p: Seq<(Tree, Tree)>, q: Seq<(Tree, Tree)>)
    requires
        sorted_pairs(p),
        sorted_pairs(q),
        pairs_map(p) == pairs_map(q),
    ensures
        p == q,
{
    lemma_no_shorter_run(p, q);
    lemma_no_shorter_run(q, p);
    lemma_keys_agree_below(p, q, p.len() as int);
    assert forall|j: int| 0 <= j < p.len() implies p[j] == q[j] by {
        lemma_pair_is_kept(p, j);
        lemma_pair_is_kept(q, j);
    }
    assert(p =~= q);
}

} // verus!
