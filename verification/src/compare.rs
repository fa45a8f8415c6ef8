//! Comparing two values in the total order.
use crate::lexical::compare_text;
use crate::order::{
    kids_order, lemma_ints_of_one, lemma_kids_end, lemma_kids_of_one, lemma_kids_of_three,
    lemma_kids_of_two, lemma_kids_step, lemma_leaf_order, lemma_node_order, tree_order, Order,
};
use crate::text::lemma_text_tree_order;
use crate::value::{
    entry_model, entry_models, field_model, field_models, fields_tree, lemma_model_by_shape,
    list_tree, models, Value,
};
use vstd::prelude::*;

verus! {

/// Compares two lists of values entry by entry, the shorter first among
/// lists that agree as far as it goes.
pub fn compare_values(a: &Vec<Value>, b: &Vec<Value>) -> (r: Order)
    ensures
        r == kids_order(models(a@), models(b@), 0),
        r == tree_order(list_tree(a@), list_tree(b@)),
    decreases a,
{
    proof {
        lemma_node_order(list_tree(a@), list_tree(b@));
    }
    let mut i: usize = 0;
    while i < a.len() && i < b.len()
        invariant
            i <= a.len(),
            i <= b.len(),
            kids_order(models(a@), models(b@), 0) == kids_order(models(a@), models(b@), i as int),
        decreases a.len() - i,
    {
        let o = a[i].compare(&b[i]);
        proof {
            lemma_kids_step(models(a@), models(b@), i as int);
        }
        if !o.is_eq() {
            return o;
        }
        i += 1;
    }
    proof {
        lemma_kids_end(models(a@), models(b@), i as int);
    }
    Order::of_unsigned(a.len() as u128, b.len() as u128)
}

/// Compares the entries of two maps of values pair by pair, each pair by its
/// key and then by its value.
pub fn compare_entries(a: &Vec<(Value, Value)>, b: &Vec<(Value, Value)>) -> (r: Order)
    ensures
        r == kids_order(entry_models(a@), entry_models(b@), 0),
    decreases a,
{
    let mut i: usize = 0;
    while i < a.len() && i < b.len()
        invariant
            i <= a.len(),
            i <= b.len(),
            kids_order(entry_models(a@), entry_models(b@), 0) == kids_order(
                entry_models(a@),
                entry_models(b@),
                i as int,
            ),
        decreases a.len() - i,
    {
        let by_key = a[i].0.compare(&b[i].0);
        let by_value = a[i].1.compare(&b[i].1);
        proof {
            lemma_kids_step(entry_models(a@), entry_models(b@), i as int);
            lemma_node_order(entry_model(a@[i as int]), entry_model(b@[i as int]));
            lemma_kids_of_two(entry_model(a@[i as int]).kids, entry_model(b@[i as int]).kids);
        }
        if !by_key.is_eq() {
            return by_key;
        }
        if !by_value.is_eq() {
            return by_value;
        }
        i += 1;
    }
    proof {
        lemma_kids_end(entry_models(a@), entry_models(b@), i as int);
    }
    Order::of_unsigned(a.len() as u128, b.len() as u128)
}

/// Compares the fields of two maps of fields pair by pair, each pair by its
/// name and then by its value.
pub fn compare_fields(a: &Vec<(&'static str, Value)>, b: &Vec<(&'static str, Value)>) -> (r:
    Order)
    ensures
        r == kids_order(field_models(a@), field_models(b@), 0),
        r == tree_order(fields_tree(a@), fields_tree(b@)),
    decreases a,
{
    proof {
        lemma_node_order(fields_tree(a@), fields_tree(b@));
    }
    let mut i: usize = 0;
    while i < a.len() && i < b.len()
        invariant
            i <= a.len(),
            i <= b.len(),
            kids_order(field_models(a@), field_models(b@), 0) == kids_order(
                field_models(a@),
                field_models(b@),
                i as int,
            ),
        decreases a.len() - i,
    {
        let by_name = compare_text(a[i].0, b[i].0);
        let by_value = a[i].1.compare(&b[i].1);
        proof {
            lemma_kids_step(field_models(a@), field_models(b@), i as int);
            lemma_node_order(field_model(a@[i as int]), field_model(b@[i as int]));
            lemma_kids_of_two(field_model(a@[i as int]).kids, field_model(b@[i as int]).kids);
            lemma_text_tree_order(a@[i as int].0@, b@[i as int].0@);
        }
        if !by_name.is_eq() {
            return by_name;
        }
        if !by_value.is_eq() {
            return by_value;
        }
        i += 1;
    }
    proof {
        lemma_kids_end(field_models(a@), field_models(b@), i as int);
    }
    Order::of_unsigned(a.len() as u128, b.len() as u128)
}

impl Value {
    fn tag_index(&self) -> (r: u8)
        ensures
            r == self.tag(),
    {
        match self {
            Value::Unit => 0,
            Value::Bool(_) => 1,
            Value::Char(_) => 2,
            Value::Number(_) => 3,
            Value::String(_) => 4,
            Value::Sequence(_) => 5,
            Value::Mapping(_) => 6,
            Value::Tuple(_) => 7,
            Value::UnitStruct(_) => 8,
            Value::TupleStruct(_) => 9,
            Value::NamedStruct(_) => 10,
            Value::UnitVariant(_) => 11,
            Value::TupleVariant(_) => 12,
            Value::NamedVariant(_) => 13,
        }
    }

    /// Compares two values in the total order: by shape first, and within a
    /// shape part by part.
    pub fn compare(&self, other: &Value) -> (r: Order)
        ensures
            r == self.order(*other),
        decreases self,
    {
        proof {
            lemma_model_by_shape(*self);
            lemma_model_by_shape(*other);
            let a = self.model();
            let b = other.model();
            if a.kids.len() == 0 && b.kids.len() == 0 {
                lemma_leaf_order(a, b);
            }
            if a.atoms.len() == 0 && b.atoms.len() == 0 {
                lemma_node_order(a, b);
            }
            if a.atoms.len() == 1 && b.atoms.len() == 1 {
                lemma_ints_of_one(a.atoms, b.atoms);
            }
            if a.kids.len() == 1 && b.kids.len() == 1 {
                lemma_kids_of_one(a.kids, b.kids);
            }
            if a.kids.len() == 2 && b.kids.len() == 2 {
                lemma_kids_of_two(a.kids, b.kids);
            }
            if a.kids.len() == 3 && b.kids.len() == 3 {
                lemma_kids_of_three(a.kids, b.kids);
            }
        }
        match (self, other) {
            (Value::Unit, Value::Unit) => Order::Equal,
            (Value::Bool(a), Value::Bool(b)) => {
                let x: u128 = if *a {
                    1
                } else {
                    0
                };
                let y: u128 = if *b {
                    1
                } else {
                    0
                };
                Order::of_unsigned(x, y)
            },
            (Value::Char(a), Value::Char(b)) => Order::of_unsigned(
                (*a as u32) as u128,
                (*b as u32) as u128,
            ),
            (Value::Number(a), Value::Number(b)) => a.compare(b),
            (Value::String(a), Value::String(b)) => {
                proof {
                    lemma_text_tree_order(a@, b@);
                }
                compare_text(a.as_str(), b.as_str())
            },
            (Value::Sequence(a), Value::Sequence(b)) => compare_values(a, b),
            (Value::Mapping(a), Value::Mapping(b)) => a.compare(b),
            (Value::Tuple(a), Value::Tuple(b)) => compare_values(a, b),
            (Value::UnitStruct(a), Value::UnitStruct(b)) => {
                proof {
                    lemma_text_tree_order(a.name@, b.name@);
                }
                compare_text(a.name, b.name)
            },
            (Value::TupleStruct(a), Value::TupleStruct(b)) => {
                proof {
                    lemma_text_tree_order(a.name@, b.name@);
                }
                let by_name = compare_text(a.name, b.name);
                if !by_name.is_eq() {
                    by_name
                } else {
                    compare_values(&a.values, &b.values)
                }
            },
            (Value::NamedStruct(a), Value::NamedStruct(b)) => {
                proof {
                    lemma_text_tree_order(a.name@, b.name@);
                }
                let by_name = compare_text(a.name, b.name);
                if !by_name.is_eq() {
                    by_name
                } else {
                    a.fields.compare(&b.fields)
                }
            },
            (Value::UnitVariant(a), Value::UnitVariant(b)) => {
                proof {
                    lemma_text_tree_order(a.name@, b.name@);
                    lemma_text_tree_order(a.variant@, b.variant@);
                }
                let by_name = compare_text(a.name, b.name);
                if !by_name.is_eq() {
                    by_name
                } else {
                    compare_text(a.variant, b.variant)
                }
            },
            (Value::TupleVariant(a), Value::TupleVariant(b)) => {
                proof {
                    lemma_text_tree_order(a.name@, b.name@);
                    lemma_text_tree_order(a.variant@, b.variant@);
                }
                let by_name = compare_text(a.name, b.name);
                if !by_name.is_eq() {
                    return by_name;
                }
                let by_variant = compare_text(a.variant, b.variant);
                if !by_variant.is_eq() {
                    by_variant
                } else {
                    compare_values(&a.values, &b.values)
                }
            },
            (Value::NamedVariant(a), Value::NamedVariant(b)) => {
                proof {
                    lemma_text_tree_order(a.name@, b.name@);
                    lemma_text_tree_order(a.variant@, b.variant@);
                }
                let by_name = compare_text(a.name, b.name);
                if !by_name.is_eq() {
                    return by_name;
                }
                let by_variant = compare_text(a.variant, b.variant);
                if !by_variant.is_eq() {
                    by_variant
                } else {
                    a.fields.compare(&b.fields)
                }
            },
            _ => Order::of_unsigned(self.tag_index() as u128, other.tag_index() as u128),
        }
    }
}

} // verus!
