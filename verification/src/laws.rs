//! What holds of every value: the order is total, it agrees with equality,
//! and the maps keep their entries in it.
use crate::order::{
    lemma_order_agrees_with_equality, lemma_order_is_total, lemma_order_is_transitive,
    lemma_order_mirrors, Order,
};
use crate::maps::{entry_pairs, field_pairs};
use crate::sorted::{lemma_keys_differ, lemma_sorted_run_is_unique};
use crate::text::{lemma_text_tie, lemma_text_tree_order, text_order, text_tree};
use crate::value::{
    entry_model, entry_models, field_model, field_models, lemma_model_by_shape, FieldMap,
    NamedStruct, Value, ValueMap,
};
use vstd::prelude::*;

verus! {

/// Of `x` before `y`, `x` the same as `y` and `y` before `x`, exactly one
/// holds, whatever the two values hold.
pub proof fn lemma_values_are_totally_ordered(x: Value, y: Value)
    ensures
        x.before(y) || x.same(y) || y.before(x),
        !(x.before(y) && x.same(y)),
        !(y.before(x) && x.same(y)),
        !(x.before(y) && y.before(x)),
{
    lemma_order_is_total(x.model(), y.model());
}

/// Two values tie in the order exactly when they are the same value.
pub proof fn lemma_tie_means_same(x: Value, y: Value)
    ensures
        (x.order(y) == Order::Equal) <==> x.same(y),
{
    lemma_order_agrees_with_equality(x.model(), y.model());
}

/// Comparing in the other direction gives the mirrored outcome.
pub proof fn lemma_value_order_mirrors(x: Value, y: Value)
    ensures
        y.order(x) == x.order(y).flip(),
{
    lemma_order_mirrors(x.model(), y.model());
}

/// A value before one that is before a third is before the third.
pub proof fn lemma_value_order_is_transitive(x: Value, y: Value, z: Value)
    requires
        x.before(y),
        y.before(z),
    ensures
        x.before(z),
{
    lemma_order_is_transitive(x.model(), y.model(), z.model());
}

/// Values of different shapes are ordered by their shapes alone.
pub proof fn lemma_shapes_decide_first(x: Value, y: Value)
    requires
        x.tag() < y.tag(),
    ensures
        x.before(y),
{
    lemma_model_by_shape(x);
    lemma_model_by_shape(y);
}

/// In a map of values an earlier entry has the smaller key, so that no two
/// entries have the same key.
pub proof fn lemma_map_keys_rise(map: ValueMap, i: int, j: int)
    requires
        map.wf(),
        0 <= i < j < map.items().len(),
    ensures
        map.items()[i].0.before(map.items()[j].0),
        !map.items()[i].0.same(map.items()[j].0),
{
    map.lemma_wf();
    let p = entry_pairs(map.items());
    assert(p[i].0 == map.items()[i].0.model());
    assert(p[j].0 == map.items()[j].0.model());
    if p[i].0 == p[j].0 {
        lemma_keys_differ(p, i, j);
    }
}

/// In a map of fields an earlier entry has the name that comes first, so
/// that no two entries have the same name.
pub proof fn lemma_field_names_rise(fields: FieldMap, i: int, j: int)
    requires
        fields.wf(),
        0 <= i < j < fields.items().len(),
    ensures
        text_order(fields.items()[i].0@, fields.items()[j].0@) == Order::Less,
        fields.items()[i].0@ != fields.items()[j].0@,
{
    fields.lemma_wf();
    let p = field_pairs(fields.items());
    assert(p[i].0 == text_tree(fields.items()[i].0@));
    assert(p[j].0 == text_tree(fields.items()[j].0@));
    lemma_text_tree_order(fields.items()[i].0@, fields.items()[j].0@);
    lemma_text_tie(fields.items()[i].0@, fields.items()[j].0@);
}

/// Two maps of values with the same entries hold them in the same order,
/// whatever the order in which the entries were put: as values they are the
/// same.
pub proof fn lemma_map_forgets_the_order_of_puts(a: ValueMap, b: ValueMap)
    requires
        a.wf(),
        b.wf(),
        a@ == b@,
    ensures
        entry_pairs(a.items()) == entry_pairs(b.items()),
        Value::Mapping(a).same(Value::Mapping(b)),
{
    a.lemma_wf();
    b.lemma_wf();
    let p = entry_pairs(a.items());
    let q = entry_pairs(b.items());
    lemma_sorted_run_is_unique(p, q);
    lemma_model_by_shape(Value::Mapping(a));
    lemma_model_by_shape(Value::Mapping(b));
    assert(a.items().len() == b.items().len()) by {
        assert(p.len() == q.len());
    }
    assert forall|i: int| 0 <= i < a.items().len() implies entry_model(a.items()[i])
        == entry_model(b.items()[i]) by {
        assert(p[i] == q[i]);
    }
    assert(entry_models(a.items()) =~= entry_models(b.items()));
}

/// Two maps of fields with the same entries hold them in the same order,
/// whatever the order in which the fields were put: structs built from them
/// under one name are the same value.
pub proof fn lemma_fields_forget_the_order_of_puts(
    name: &'static str,
    a: FieldMap,
    b: FieldMap,
)
    requires
        a.wf(),
        b.wf(),
        a@ == b@,
    ensures
        field_pairs(a.items()) == field_pairs(b.items()),
        Value::NamedStruct(NamedStruct { name, fields: a }).same(
            Value::NamedStruct(NamedStruct { name, fields: b }),
        ),
{
    a.lemma_wf();
    b.lemma_wf();
    let p = field_pairs(a.items());
    let q = field_pairs(b.items());
    lemma_sorted_run_is_unique(p, q);
    lemma_model_by_shape(Value::NamedStruct(NamedStruct { name, fields: a }));
    lemma_model_by_shape(Value::NamedStruct(NamedStruct { name, fields: b }));
    assert(a.items().len() == b.items().len()) by {
        assert(p.len() == q.len());
    }
    assert forall|i: int| 0 <= i < a.items().len() implies field_model(a.items()[i])
        == field_model(b.items()[i]) by {
        assert(p[i] == q[i]);
    }
    assert(field_models(a.items()) =~= field_models(b.items()));
}

} // verus!
