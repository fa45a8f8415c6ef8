//! Copies of values. A copy has the model of the value it was made from, so
//! it is equal to it, ordered like it and may take its place in a map.
use crate::maps::{entry_pairs, field_pairs};
use crate::value::{
    entry_models, field_models, lemma_model_by_shape, lemma_same_values_read_alike, models,
    NamedStruct, NamedVariant, TupleStruct, TupleVariant, Value,
};
use vstd::prelude::*;
use vstd::string::*;

verus! {

/// Copies each value of a list.
pub fn clone_values(items: &Vec<Value>) -> (r: Vec<Value>)
    ensures
        r@.len() == items@.len(),
        forall|j: int| 0 <= j < items@.len() ==> (#[trigger] r@[j]).model() == items@[j].model(),
        models(r@) == models(items@),
    decreases items,
{
    let mut out: Vec<Value> = Vec::new();
    let mut i: usize = 0;
    while i < items.len()
        invariant
            i <= items@.len(),
            out@.len() == i,
            forall|j: int| 0 <= j < i ==> (#[trigger] out@[j]).model() == items@[j].model(),
        decreases items@.len() - i,
    {
        out.push(items[i].clone());
        i += 1;
    }
    assert(models(out@) =~= models(items@));
    out
}

/// Copies each entry of a map of values.
pub fn clone_entries(entries: &Vec<(Value, Value)>) -> (r: Vec<(Value, Value)>)
    ensures
        r@.len() == entries@.len(),
        entry_pairs(r@) == entry_pairs(entries@),
        entry_models(r@) == entry_models(entries@),
    decreases entries,
{
    let mut out: Vec<(Value, Value)> = Vec::new();
    let mut i: usize = 0;
    while i < entries.len()
        invariant
            i <= entries@.len(),
            out@.len() == i,
            forall|j: int|
                0 <= j < i ==> (#[trigger] out@[j]).0.model() == entries@[j].0.model()
                    && out@[j].1.model() == entries@[j].1.model(),
        decreases entries@.len() - i,
    {
        let key = entries[i].0.clone();
        let value = entries[i].1.clone();
        out.push((key, value));
        i += 1;
    }
    assert(entry_pairs(out@) =~= entry_pairs(entries@));
    assert(entry_models(out@) =~= entry_models(entries@));
    out
}

/// Copies each entry of a map of fields.
pub fn clone_fields(entries: &Vec<(&'static str, Value)>) -> (r: Vec<(&'static str, Value)>)
    ensures
        r@.len() == entries@.len(),
        field_pairs(r@) == field_pairs(entries@),
        field_models(r@) == field_models(entries@),
    decreases entries,
{
    let mut out: Vec<(&'static str, Value)> = Vec::new();
    let mut i: usize = 0;
    while i < entries.len()
        invariant
            i <= entries@.len(),
            out@.len() == i,
            forall|j: int|
                0 <= j < i ==> (#[trigger] out@[j]).0 == entries@[j].0 && out@[j].1.model()
                    == entries@[j].1.model(),
        decreases entries@.len() - i,
    {
        let value = entries[i].1.clone();
        out.push((entries[i].0, value));
        i += 1;
    }
    assert(field_pairs(out@) =~= field_pairs(entries@));
    assert(field_models(out@) =~= field_models(entries@));
    out
}

impl Clone for Value {
    fn clone(&self) -> (r: Value)
        ensures
            r.model() == self.model(),
            r.text() == self.text(),
        decreases self,
    {
        let r = match self {
            Value::Unit => Value::Unit,
            Value::Bool(b) => Value::Bool(*b),
            Value::Char(c) => Value::Char(*c),
            Value::Number(n) => Value::Number(*n),
            Value::String(s) => Value::String(String::from_str(s.as_str())),
            Value::Sequence(items) => Value::Sequence(clone_values(items)),
            Value::Mapping(map) => Value::Mapping(map.clone()),
            Value::Tuple(items) => Value::Tuple(clone_values(items)),
            Value::UnitStruct(s) => Value::UnitStruct(*s),
            Value::TupleStruct(s) => Value::TupleStruct(
                TupleStruct { name: s.name, values: clone_values(&s.values) },
            ),
            Value::NamedStruct(s) => Value::NamedStruct(
                NamedStruct { name: s.name, fields: s.fields.clone() },
            ),
            Value::UnitVariant(s) => Value::UnitVariant(*s),
            Value::TupleVariant(s) => Value::TupleVariant(
                TupleVariant { name: s.name, variant: s.variant, values: clone_values(&s.values) },
            ),
            Value::NamedVariant(s) => Value::NamedVariant(
                NamedVariant { name: s.name, variant: s.variant, fields: s.fields.clone() },
            ),
        };
        proof {
            lemma_model_by_shape(*self);
            lemma_model_by_shape(r);
            lemma_same_values_read_alike(*self, r);
        }
        r
    }
}

impl Clone for TupleStruct {
    fn clone(&self) -> (r: TupleStruct)
        ensures
            r.name == self.name,
            models(r.values@) == models(self.values@),
    {
        TupleStruct { name: self.name, values: clone_values(&self.values) }
    }
}

impl Clone for NamedStruct {
    fn clone(&self) -> (r: NamedStruct)
        ensures
            r.name == self.name,
            r.fields@ == self.fields@,
    {
        NamedStruct { name: self.name, fields: self.fields.clone() }
    }
}

impl Clone for TupleVariant {
    fn clone(&self) -> (r: TupleVariant)
        ensures
            r.name == self.name,
            r.variant == self.variant,
            models(r.values@) == models(self.values@),
    {
        TupleVariant {
            name: self.name,
            variant: self.variant,
            values: clone_values(&self.values),
        }
    }
}

impl Clone for NamedVariant {
    fn clone(&self) -> (r: NamedVariant)
        ensures
            r.name == self.name,
            r.variant == self.variant,
            r.fields@ == self.fields@,
    {
        NamedVariant { name: self.name, variant: self.variant, fields: self.fields.clone() }
    }
}

} // verus!
