//! Text: the model of a string in the order, and the pieces from which the
//! rendering of a value is put together.
use crate::order::{
    ints_order, leaf, lemma_leaf_order, lemma_order_agrees_with_equality, tree_order, Order, Tree,
};
use vstd::prelude::*;
use vstd::string::*;

verus! {

/// The code points of a string, as integers.
pub open spec fn codes(s: Seq<char>) -> Seq<int> {
    Seq::new(s.len(), |i: int| s[i] as int)
}

/// The tag of the tree that models a string.
pub open spec fn text_tag() -> int {
    4
}

/// The tree that models a string: its code points in order.
pub open spec fn text_tree(s: Seq<char>) -> Tree {
    leaf(text_tag(), codes(s))
}

/// Strings are ordered code point by code point, a prefix first.
pub open spec fn text_order(a: Seq<char>, b: Seq<char>) -> Order {
    ints_order(codes(a), codes(b), 0)
}

/// The order of two strings is the order of the trees that model them.
pub proof fn lemma_text_tree_order(a: Seq<char>, b: Seq<char>)
    ensures
        tree_order(text_tree(a), text_tree(b)) == text_order(a, b),
{
    lemma_leaf_order(text_tree(a), text_tree(b));
}

/// Different strings have different trees.
pub proof fn lemma_text_tree_is_one_to_one(a: Seq<char>, b: Seq<char>)
    requires
        text_tree(a) == text_tree(b),
    ensures
        a == b,
{
    assert(codes(a) == codes(b));
    assert(a.len() == b.len());
    assert forall|i: int| 0 <= i < a.len() implies a[i] == b[i] by {
        assert(codes(a)[i] == codes(b)[i]);
    }
    assert(a =~= b);
}

/// Strings tie in the order exactly when they are the same string.
pub proof fn lemma_text_tie(a: Seq<char>, b: Seq<char>)
    ensures
        (text_order(a, b) == Order::Equal) <==> a == b,
{
    lemma_text_tree_order(a, b);
    lemma_order_agrees_with_equality(text_tree(a), text_tree(b));
    if text_tree(a) == text_tree(b) {
        lemma_text_tree_is_one_to_one(a, b);
    }
}

/// The character that stands for a digit below ten.
pub open spec fn digit(d: int) -> char {
    if d == 0 {
        '0'
    } else if d == 1 {
        '1'
    } else if d == 2 {
        '2'
    } else if d == 3 {
        '3'
    } else if d == 4 {
        '4'
    } else if d == 5 {
        '5'
    } else if d == 6 {
        '6'
    } else if d == 7 {
        '7'
    } else if d == 8 {
        '8'
    } else {
        '9'
    }
}

/// A natural number in decimal, without leading zeros.
pub open spec fn decimal(n: nat) -> Seq<char>
    decreases n,
{
    if n < 10 {
        seq![digit(n as int)]
    } else {
        decimal(n / 10).push(digit((n % 10) as int))
    }
}

/// An integer in decimal, with a minus sign where it is negative.
pub open spec fn signed_decimal(n: int) -> Seq<char> {
    if n < 0 {
        seq!['-'] + decimal((-n) as nat)
    } else {
        decimal(n as nat)
    }
}

fn digit_text(d: u8) -> (r: &'static str)
    requires
        d < 10,
    ensures
        r@ == seq![digit(d as int)],
{
    proof {
        reveal_strlit("0");
        reveal_strlit("1");
        reveal_strlit("2");
        reveal_strlit("3");
        reveal_strlit("4");
        reveal_strlit("5");
        reveal_strlit("6");
        reveal_strlit("7");
        reveal_strlit("8");
        reveal_strlit("9");
    }
    let r = if d == 0 {
        "0"
    } else if d == 1 {
        "1"
    } else if d == 2 {
        "2"
    } else if d == 3 {
        "3"
    } else if d == 4 {
        "4"
    } else if d == 5 {
        "5"
    } else if d == 6 {
        "6"
    } else if d == 7 {
        "7"
    } else if d == 8 {
        "8"
    } else {
        "9"
    };
    assert(r@ =~= seq![digit(d as int)]);
    r
}

/// Writes a natural number in decimal.
pub fn unsigned_text(n: u128) -> (r: String)
    ensures
        r@ == decimal(n as nat),
    decreases n,
{
    if n < 10 {
        String::from_str(digit_text(n as u8))
    } else {
        let head = unsigned_text(n / 10);
        let r = head.concat(digit_text((n % 10) as u8));
        assert(r@ =~= decimal((n / 10) as nat).push(digit((n % 10) as int)));
        r
    }
}

/// Writes an integer in decimal.
pub fn signed_text(n: i128) -> (r: String)
    ensures
        r@ == signed_decimal(n as int),
{
    if n < 0 {
        let magnitude: u128 = ((-(n + 1)) as u128) + 1;
        let digits = unsigned_text(magnitude);
        proof {
            reveal_strlit("-");
        }
        let r = String::from_str("-").concat(digits.as_str());
        assert(r@ =~= seq!['-'] + decimal((-n) as nat));
        r
    } else {
        unsigned_text(n as u128)
    }
}

/// The text of a truth value.
pub open spec fn bool_text(b: bool) -> Seq<char> {
    if b {
        seq!['t', 'r', 'u', 'e']
    } else {
        seq!['f', 'a', 'l', 's', 'e']
    }
}

/// Writes a truth value.
pub fn bool_to_text(b: bool) -> (r: String)
    ensures
        r@ == bool_text(b),
{
    proof {
        reveal_strlit("true");
        reveal_strlit("false");
    }
    let r = if b {
        String::from_str("true")
    } else {
        String::from_str("false")
    };
    assert(r@ =~= bool_text(b));
    r
}

/// The quoted and escaped form in which the standard library's `Debug`
/// writes a character.
pub uninterp spec fn char_debug(c: char) -> Seq<char>;

/// The quoted and escaped form in which the standard library's `Debug`
/// writes a string.
pub uninterp spec fn str_debug(s: Seq<char>) -> Seq<char>;

/// Calls the `Debug` formatting of `char`. Trusted: the result is the quoted
/// form of the character, which depends on the character alone.
#[verifier::external_body]
pub(crate) fn char_debug_text(c: char) -> (r: String)
    ensures
        r@ == char_debug(c),
{
    format!("{:?}", c)
}

/// Calls the `Debug` formatting of `str`. Trusted: the result is the quoted
/// form of the string, which depends on its characters alone.
#[verifier::external_body]
pub(crate) fn str_debug_text(s: &str) -> (r: String)
    ensures
        r@ == str_debug(s@),
{
    format!("{:?}", s)
}

} // verus!
