//! Keeping entries in the strict order of their keys: finding the place of a
//! key in such a run by halving, putting an entry at its place, and finding
//! the value under a key.
use crate::lexical::compare_text;
use crate::order::{
    lemma_order_agrees_with_equality, lemma_order_is_transitive, lemma_order_mirrors, tree_lt,
    Tree,
};
use crate::sorted::{
    lemma_no_key_where_all_differ, lemma_pair_is_kept, lemma_put_again, lemma_put_new, pairs_map,
    sorted_pairs,
};
use crate::text::{lemma_text_tree_order, text_tree};
use crate::value::Value;
use vstd::prelude::*;

verus! {

/// The key and the value of each entry of a map of values, as trees.
pub open spec fn entry_pairs(entries: Seq<(Value, Value)>) -> Seq<(Tree, Tree)> {
    Seq::new(entries.len(), |i: int| (entries[i].0.model(), entries[i].1.model()))
}

/// The name and the value of each entry of a map of fields, as trees.
pub open spec fn field_pairs(entries: Seq<(&'static str, Value)>) -> Seq<(Tree, Tree)> {
    Seq::new(entries.len(), |i: int| (text_tree(entries[i].0@), entries[i].1.model()))
}

/// `at` is the place of the key `k` in the sorted run `p`: every key before
/// it is smaller, and the key at it, if there is one, is `k` where `found`
/// and greater where not.
pub open spec fn is_place(p: Seq<(Tree, Tree)>, k: Tree, at: int, found: bool) -> bool {
    &&& 0 <= at <= p.len()
    &&& forall|j: int| 0 <= j < at ==> tree_lt((#[trigger] p[j]).0, k)
    &&& found ==> at < p.len() && p[at].0 == k
    &&& !found ==> (at < p.len() ==> tree_lt(k, p[at].0))
}

/// A key that is not found at its place is not in the run.
pub proof fn lemma_place_decides(p: Seq<(Tree, Tree)>, k: Tree, at: int, found: bool)
    requires
        sorted_pairs(p),
        is_place(p, k, at, found),
    ensures
        found == pairs_map(p).dom().contains(k),
        found ==> pairs_map(p)[k] == p[at].1,
{
    if found {
        lemma_pair_is_kept(p, at);
    } else {
        assert forall|j: int| 0 <= j < p.len() implies (#[trigger] p[j]).0 != k by {
            if j < at {
                lemma_order_agrees_with_equality(p[j].0, k);
            } else {
                if j > at {
                    assert(tree_lt(p[at].0, p[j].0));
                    lemma_order_is_transitive(k, p[at].0, p[j].0);
                }
                lemma_order_agrees_with_equality(k, p[j].0);
            }
        }
        lemma_no_key_where_all_differ(p, k);
    }
}

/// Finds the place of `key` among the entries by halving the run.
pub fn place_of_key(entries: &Vec<(Value, Value)>, key: &Value) -> (r: (usize, bool))
    requires
        sorted_pairs(entry_pairs(entries@)),
    ensures
        is_place(entry_pairs(entries@), key.model(), r.0 as int, r.1),
{
    let ghost p = entry_pairs(entries@);
    let ghost k = key.model();
    let mut lo: usize = 0;
    let mut hi: usize = entries.len();
    while lo < hi
        invariant
            lo <= hi <= entries@.len(),
            p == entry_pairs(entries@),
            k == key.model(),
            sorted_pairs(p),
            forall|j: int| 0 <= j < lo ==> tree_lt((#[trigger] p[j]).0, k),
            forall|j: int| hi <= j < p.len() ==> tree_lt(k, (#[trigger] p[j]).0),
        decreases hi - lo,
    {
        let mid: usize = lo + (hi - lo) / 2;
        let o = entries[mid].0.compare(key);
        proof {
            assert(p[mid as int].0 == entries@[mid as int].0.model());
            lemma_order_agrees_with_equality(p[mid as int].0, k);
            lemma_order_mirrors(p[mid as int].0, k);
        }
        if o.is_eq() {
            proof {
                assert forall|j: int| 0 <= j < mid implies tree_lt((#[trigger] p[j]).0, k) by {
                    assert(tree_lt(p[j].0, p[mid as int].0));
                }
            }
            return (mid, true);
        }
        if o.is_lt() {
            proof {
                assert forall|j: int| 0 <= j < mid + 1 implies tree_lt((#[trigger] p[j]).0, k) by {
                    if j < mid {
                        assert(tree_lt(p[j].0, p[mid as int].0));
                        lemma_order_is_transitive(p[j].0, p[mid as int].0, k);
                    }
                }
            }
            lo = mid + 1;
        } else {
            proof {
                assert forall|j: int| mid <= j < p.len() implies tree_lt(
                    k,
                    (#[trigger] p[j]).0,
                ) by {
                    if j > mid {
                        assert(tree_lt(p[mid as int].0, p[j].0));
                        lemma_order_is_transitive(k, p[mid as int].0, p[j].0);
                    }
                }
            }
            hi = mid;
        }
    }
    (lo, false)
}

/// Puts `value` under `key`. Where the run holds the key already, the
/// value replaces the one that was there; otherwise the entry takes its
/// place in the order of the keys.
pub fn put_entry(entries: &mut Vec<(Value, Value)>, key: Value, value: Value)
    requires
        sorted_pairs(entry_pairs(old(entries)@)),
    ensures
        sorted_pairs(entry_pairs(final(entries)@)),
        pairs_map(entry_pairs(final(entries)@)) == pairs_map(entry_pairs(old(entries)@)).insert(
            key.model(),
            value.model(),
        ),
        final(entries)@.len() == old(entries)@.len() + (if pairs_map(
            entry_pairs(old(entries)@),
        ).dom().contains(key.model()) {
            0int
        } else {
            1int
        }),
{
    let ghost before = entry_pairs(entries@);
    let ghost k = key.model();
    let ghost v = value.model();
    let (at, found) = place_of_key(entries, &key);
    proof {
        lemma_place_decides(before, k, at as int, found);
    }
    if found {
        proof {
            lemma_put_again(before, at as int, v);
        }
        entries.set(at, (key, value));
        assert(entry_pairs(entries@) =~= before.update(at as int, (k, v)));
    } else {
        proof {
            lemma_put_new(before, at as int, k, v);
        }
        entries.insert(at, (key, value));
        assert(entry_pairs(entries@) =~= before.insert(at as int, (k, v)));
    }
}

/// The value under `key`, if the run holds the key.
pub fn find_entry<'a>(entries: &'a Vec<(Value, Value)>, key: &Value) -> (r: Option<&'a Value>)
    requires
        sorted_pairs(entry_pairs(entries@)),
    ensures
        r is Some <==> pairs_map(entry_pairs(entries@)).dom().contains(key.model()),
        r matches Some(value) ==> pairs_map(entry_pairs(entries@))[key.model()]
            == value.model(),
{
    let (at, found) = place_of_key(entries, key);
    proof {
        lemma_place_decides(entry_pairs(entries@), key.model(), at as int, found);
    }
    if found {
        Some(&entries[at].1)
    } else {
        None
    }
}

/// Finds the place of `name` among the entries by halving the run.
pub fn place_of_name(entries: &Vec<(&'static str, Value)>, name: &str) -> (r: (usize, bool))
    requires
        sorted_pairs(field_pairs(entries@)),
    ensures
        is_place(field_pairs(entries@), text_tree(name@), r.0 as int, r.1),
{
    let ghost p = field_pairs(entries@);
    let ghost k = text_tree(name@);
    let mut lo: usize = 0;
    let mut hi: usize = entries.len();
    while lo < hi
        invariant
            lo <= hi <= entries@.len(),
            p == field_pairs(entries@),
            k == text_tree(name@),
            sorted_pairs(p),
            forall|j: int| 0 <= j < lo ==> tree_lt((#[trigger] p[j]).0, k),
            forall|j: int| hi <= j < p.len() ==> tree_lt(k, (#[trigger] p[j]).0),
        decreases hi - lo,
    {
        let mid: usize = lo + (hi - lo) / 2;
        let o = compare_text(entries[mid].0, name);
        proof {
            lemma_text_tree_order(entries@[mid as int].0@, name@);
            assert(p[mid as int].0 == text_tree(entries@[mid as int].0@));
            lemma_order_agrees_with_equality(p[mid as int].0, k);
            lemma_order_mirrors(p[mid as int].0, k);
        }
        if o.is_eq() {
            proof {
                assert forall|j: int| 0 <= j < mid implies tree_lt((#[trigger] p[j]).0, k) by {
                    assert(tree_lt(p[j].0, p[mid as int].0));
                }
            }
            return (mid, true);
        }
        if o.is_lt() {
            proof {
                assert forall|j: int| 0 <= j < mid + 1 implies tree_lt((#[trigger] p[j]).0, k) by {
                    if j < mid {
                        assert(tree_lt(p[j].0, p[mid as int].0));
                        lemma_order_is_transitive(p[j].0, p[mid as int].0, k);
                    }
                }
            }
            lo = mid + 1;
        } else {
            proof {
                assert forall|j: int| mid <= j < p.len() implies tree_lt(
                    k,
                    (#[trigger] p[j]).0,
                ) by {
                    if j > mid {
                        assert(tree_lt(p[mid as int].0, p[j].0));
                        lemma_order_is_transitive(k, p[mid as int].0, p[j].0);
                    }
                }
            }
            hi = mid;
        }
    }
    (lo, false)
}

/// Puts `value` under `name`. Where the run holds the name already, the
/// value replaces the one that was there; otherwise the entry takes its
/// place in the order of the names.
pub fn put_field(entries: &mut Vec<(&'static str, Value)>, name: &'static str, value: Value)
    requires
        sorted_pairs(field_pairs(old(entries)@)),
    ensures
        sorted_pairs(field_pairs(final(entries)@)),
        pairs_map(field_pairs(final(entries)@)) == pairs_map(field_pairs(old(entries)@)).insert(
            text_tree(name@),
            value.model(),
        ),
        final(entries)@.len() == old(entries)@.len() + (if pairs_map(
            field_pairs(old(entries)@),
        ).dom().contains(text_tree(name@)) {
            0int
        } else {
            1int
        }),
{
    let ghost before = field_pairs(entries@);
    let ghost k = text_tree(name@);
    let ghost v = value.model();
    let (at, found) = place_of_name(entries, name);
    proof {
        lemma_place_decides(before, k, at as int, found);
    }
    if found {
        proof {
            lemma_put_again(before, at as int, v);
        }
        entries.set(at, (name, value));
        assert(field_pairs(entries@) =~= before.update(at as int, (k, v)));
    } else {
        proof {
            lemma_put_new(before, at as int, k, v);
        }
        entries.insert(at, (name, value));
        assert(field_pairs(entries@) =~= before.insert(at as int, (k, v)));
    }
}

/// The value under `name`, if the run holds the name.
pub fn find_field<'a>(entries: &'a Vec<(&'static str, Value)>, name: &str) -> (r: Option<&'a Value>)
    requires
        sorted_pairs(field_pairs(entries@)),
    ensures
        r is Some <==> pairs_map(field_pairs(entries@)).dom().contains(text_tree(name@)),
        r matches Some(value) ==> pairs_map(field_pairs(entries@))[text_tree(name@)]
            == value.model(),
{
    let (at, found) = place_of_name(entries, name);
    proof {
        lemma_place_decides(field_pairs(entries@), text_tree(name@), at as int, found);
    }
    if found {
        Some(&entries[at].1)
    } else {
        None
    }
}

} // verus!
