//! The operators `<`, `<=`, `>` and `>=` on numbers and values: they follow
//! the total order.
use crate::number::{Number, F32, F64};
use crate::order::{int_order, Order};
use crate::value::Value;
use std::cmp::Ordering;
use vstd::prelude::*;
use vstd::std_specs::cmp::PartialOrdSpecImpl;

verus! {

/// The outcome in the form in which the standard library writes it.
pub open spec fn std_order(o: Order) -> Ordering {
    match o {
        Order::Less => Ordering::Less,
        Order::Equal => Ordering::Equal,
        Order::Greater => Ordering::Greater,
    }
}

/// Turns an outcome into the form in which the standard library writes it.
pub fn to_std(o: Order) -> (r: Ordering)
    ensures
        r == std_order(o),
{
    match o {
        Order::Less => Ordering::Less,
        Order::Equal => Ordering::Equal,
        Order::Greater => Ordering::Greater,
    }
}

impl PartialOrd for F32 {
    fn partial_cmp(&self, other: &F32) -> (r: Option<Ordering>) {
        Some(to_std(self.compare(other)))
    }
}

impl PartialOrdSpecImpl for F32 {
    open spec fn obeys_partial_cmp_spec() -> bool {
        true
    }

    open spec fn partial_cmp_spec(&self, other: &F32) -> Option<Ordering> {
        Some(std_order(int_order(self.rank(), other.rank())))
    }
}

impl PartialOrd for F64 {
    fn partial_cmp(&self, other: &F64) -> (r: Option<Ordering>) {
        Some(to_std(self.compare(other)))
    }
}

impl PartialOrdSpecImpl for F64 {
    open spec fn obeys_partial_cmp_spec() -> bool {
        true
    }

    open spec fn partial_cmp_spec(&self, other: &F64) -> Option<Ordering> {
        Some(std_order(int_order(self.rank(), other.rank())))
    }
}

impl PartialOrd for Number {
    fn partial_cmp(&self, other: &Number) -> (r: Option<Ordering>) {
        Some(to_std(self.compare(other)))
    }
}

impl PartialOrdSpecImpl for Number {
    open spec fn obeys_partial_cmp_spec() -> bool {
        true
    }

    open spec fn partial_cmp_spec(&self, other: &Number) -> Option<Ordering> {
        Some(std_order(self.order(*other)))
    }
}

impl PartialOrd for Value {
    fn partial_cmp(&self, other: &Value) -> (r: Option<Ordering>) {
        Some(to_std(self.compare(other)))
    }
}

impl PartialOrdSpecImpl for Value {
    open spec fn obeys_partial_cmp_spec() -> bool {
        true
    }

    open spec fn partial_cmp_spec(&self, other: &Value) -> Option<Ordering> {
        Some(std_order(self.order(*other)))
    }
}

} // verus!
