//! The comparison of two strings.
use crate::order::Order;
use crate::text::text_order;
use vstd::prelude::*;

verus! {

/// Calls `Ord::cmp` of `str`. Trusted: the standard library orders strings
/// lexicographically by their bytes, which is the order of their code
/// points, a proper prefix before the longer string.
#[verifier::external_body]
pub(crate) fn compare_text(a: &str, b: &str) -> (r: Order)
    ensures
        r == text_order(a@, b@),
{
    match a.cmp(b) {
        std::cmp::Ordering::Less => Order::Less,
        std::cmp::Ordering::Equal => Order::Equal,
        std::cmp::Ordering::Greater => Order::Greater,
    }
}

} // verus!
