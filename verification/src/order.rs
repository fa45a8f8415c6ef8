//! The total order shared by every value of this library.
//!
//! Each value is modelled by a [`Tree`]: a tag, a run of integers and a run of
//! child trees. Trees are ordered by tag first, then by their integers and
//! finally by their children, both runs compared entry by entry with the
//! shorter run first among equals. The proof functions at the end of the
//! file show that this is a strict total order.
use vstd::prelude::*;

verus! {

/// The outcome of a three-way comparison.
#[derive(Clone, Copy, Debug, PartialEq, Eq, Hash, Structural)]
pub enum Order {
    Less,
    Equal,
    Greater,
}

impl Order {
    /// The outcome seen from the other side.
    pub open spec fn flip(self) -> Order {
        match self {
            Order::Less => Order::Greater,
            Order::Equal => Order::Equal,
            Order::Greater => Order::Less,
        }
    }

    /// This outcome unless it is a tie, in which case `next` decides.
    pub open spec fn or(self, next: Order) -> Order {
        if self == Order::Equal {
            next
        } else {
            self
        }
    }

    /// Compares two unsigned integers.
    pub fn of_unsigned(a: u128, b: u128) -> (r: Order)
        ensures
            r == int_order(a as int, b as int),
    {
        if a < b {
            Order::Less
        } else if a == b {
            Order::Equal
        } else {
            Order::Greater
        }
    }

    /// Compares two signed integers.
    pub fn of_signed(a: i128, b: i128) -> (r: Order)
        ensures
            r == int_order(a as int, b as int),
    {
        if a < b {
            Order::Less
        } else if a == b {
            Order::Equal
        } else {
            Order::Greater
        }
    }

    pub fn is_lt(self) -> (r: bool)
        ensures
            r == (self == Order::Less),
    {
        matches!(self, Order::Less)
    }

    pub fn is_eq(self) -> (r: bool)
        ensures
            r == (self == Order::Equal),
    {
        matches!(self, Order::Equal)
    }

    pub fn is_gt(self) -> (r: bool)
        ensures
            r == (self == Order::Greater),
    {
        matches!(self, Order::Greater)
    }
}

/// The order of the integers.
pub open spec fn int_order(a: int, b: int) -> Order {
    if a < b {
        Order::Less
    } else if a == b {
        Order::Equal
    } else {
        Order::Greater
    }
}

/// The mathematical model of a value: what the order and equality look at.
pub struct Tree {
    pub tag: int,
    pub atoms: Seq<int>,
    pub kids: Seq<Tree>,
}

/// A tree without children.
pub open spec fn leaf(tag: int, atoms: Seq<int>) -> Tree {
    Tree { tag, atoms, kids: Seq::empty() }
}

/// A tree without integers of its own.
pub open spec fn node(tag: int, kids: Seq<Tree>) -> Tree {
    Tree { tag, atoms: Seq::empty(), kids }
}

/// Lexicographic order of two runs of integers from position `i` on.
pub open spec fn ints_order(a: Seq<int>, b: Seq<int>, i: int) -> Order
    decreases a.len() - i,
{
    if i < 0 || i >= a.len() || i >= b.len() {
        int_order(a.len() as int, b.len() as int)
    } else {
        int_order(a[i], b[i]).or(ints_order(a, b, i + 1))
    }
}

/// The order of two trees.
pub open spec fn tree_order(a: Tree, b: Tree) -> Order
    decreases a, 0int,
{
    int_order(a.tag, b.tag).or(ints_order(a.atoms, b.atoms, 0)).or(kids_order(a.kids, b.kids, 0))
}

/// Lexicographic order of two runs of trees from position `i` on.
pub open spec fn kids_order(a: Seq<Tree>, b: Seq<Tree>, i: int) -> Order
    decreases a, a.len() - i,
{
    if i < 0 || i >= a.len() || i >= b.len() {
        int_order(a.len() as int, b.len() as int)
    } else {
        tree_order(a[i], b[i]).or(kids_order(a, b, i + 1))
    }
}

/// `a` comes strictly before `b`.
pub open spec fn tree_lt(a: Tree, b: Tree) -> bool {
    tree_order(a, b) == Order::Less
}

proof fn lemma_ints_same(a: Seq<int>, i: int)
    ensures
        ints_order(a, a, i) == Order::Equal,
    decreases a.len() - i,
{
    if 0 <= i < a.len() {
        lemma_ints_same(a, i + 1);
    }
}

proof fn lemma_ints_tie(a: Seq<int>, b: Seq<int>, i: int)
    requires
        0 <= i <= a.len(),
        i <= b.len(),
        ints_order(a, b, i) == Order::Equal,
    ensures
        a.len() == b.len(),
        forall|j: int| i <= j < a.len() ==> a[j] == b[j],
    decreases a.len() - i,
{
    if i < a.len() && i < b.len() {
        lemma_ints_tie(a, b, i + 1);
    }
}

proof fn lemma_ints_flip(a: Seq<int>, b: Seq<int>, i: int)
    ensures
        ints_order(b, a, i) == ints_order(a, b, i).flip(),
    decreases a.len() - i,
{
    if 0 <= i < a.len() && i < b.len() {
        lemma_ints_flip(a, b, i + 1);
    }
}

proof fn lemma_ints_chain(a: Seq<int>, b: Seq<int>, c: Seq<int>, i: int)
    requires
        0 <= i,
        ints_order(a, b, i) == Order::Less,
        ints_order(b, c, i) == Order::Less,
    ensures
        ints_order(a, c, i) == Order::Less,
    decreases a.len() - i,
{
    if i < a.len() && i < b.len() && i < c.len() {
        if a[i] == b[i] && b[i] == c[i] {
            lemma_ints_chain(a, b, c, i + 1);
        }
    }
}

proof fn lemma_tree_same(a: Tree)
    ensures
        tree_order(a, a) == Order::Equal,
    decreases a, 0int,
{
    lemma_ints_same(a.atoms, 0);
    lemma_kids_same(a.kids, 0);
}

proof fn lemma_kids_same(a: Seq<Tree>, i: int)
    ensures
        kids_order(a, a, i) == Order::Equal,
    decreases a, a.len() - i,
{
    if 0 <= i < a.len() {
        lemma_tree_same(a[i]);
        lemma_kids_same(a, i + 1);
    }
}

proof fn lemma_tree_tie(a: Tree, b: Tree)
    requires
        tree_order(a, b) == Order::Equal,
    ensures
        a == b,
    decreases a, 0int,
{
    lemma_ints_tie(a.atoms, b.atoms, 0);
    lemma_kids_tie(a.kids, b.kids, 0);
    assert(a.atoms =~= b.atoms);
    assert(a.kids =~= b.kids);
}

proof fn lemma_kids_tie(a: Seq<Tree>, b: Seq<Tree>, i: int)
    requires
        0 <= i <= a.len(),
        i <= b.len(),
        kids_order(a, b, i) == Order::Equal,
    ensures
        a.len() == b.len(),
        forall|j: int| i <= j < a.len() ==> a[j] == b[j],
    decreases a, a.len() - i,
{
    if i < a.len() && i < b.len() {
        lemma_tree_tie(a[i], b[i]);
        lemma_kids_tie(a, b, i + 1);
    }
}

proof fn lemma_tree_flip(a: Tree, b: Tree)
    ensures
        tree_order(b, a) == tree_order(a, b).flip(),
    decreases a, 0int,
{
    lemma_ints_flip(a.atoms, b.atoms, 0);
    lemma_kids_flip(a.kids, b.kids, 0);
}

proof fn lemma_kids_flip(a: Seq<Tree>, b: Seq<Tree>, i: int)
    ensures
        kids_order(b, a, i) == kids_order(a, b, i).flip(),
    decreases a, a.len() - i,
{
    if 0 <= i < a.len() && i < b.len() {
        lemma_tree_flip(a[i], b[i]);
        lemma_kids_flip(a, b, i + 1);
    }
}

proof fn lemma_tree_chain(a: Tree, b: Tree, c: Tree)
    requires
        tree_order(a, b) == Order::Less,
        tree_order(b, c) == Order::Less,
    ensures
        tree_order(a, c) == Order::Less,
    decreases a, 0int,
{
    if a.tag == b.tag && b.tag == c.tag {
        let ab = ints_order(a.atoms, b.atoms, 0);
        let bc = ints_order(b.atoms, c.atoms, 0);
        if ab == Order::Equal {
            lemma_ints_tie(a.atoms, b.atoms, 0);
            assert(a.atoms =~= b.atoms);
        }
        if bc == Order::Equal {
            lemma_ints_tie(b.atoms, c.atoms, 0);
            assert(b.atoms =~= c.atoms);
        }
        if ab == Order::Less && bc == Order::Less {
            lemma_ints_chain(a.atoms, b.atoms, c.atoms, 0);
        }
        if ab == Order::Equal && bc == Order::Equal {
            lemma_kids_chain(a.kids, b.kids, c.kids, 0);
        }
    }
}

proof fn lemma_kids_chain(a: Seq<Tree>, b: Seq<Tree>, c: Seq<Tree>, i: int)
    requires
        0 <= i,
        kids_order(a, b, i) == Order::Less,
        kids_order(b, c, i) == Order::Less,
    ensures
        kids_order(a, c, i) == Order::Less,
    decreases a, a.len() - i,
{
    if i < a.len() && i < b.len() && i < c.len() {
        let ab = tree_order(a[i], b[i]);
        let bc = tree_order(b[i], c[i]);
        if ab == Order::Equal {
            lemma_tree_tie(a[i], b[i]);
        }
        if bc == Order::Equal {
            lemma_tree_tie(b[i], c[i]);
        }
        if ab == Order::Less && bc == Order::Less {
            lemma_tree_chain(a[i], b[i], c[i]);
        }
        if ab == Order::Equal && bc == Order::Equal {
            lemma_kids_chain(a, b, c, i + 1);
        }
    }
}

/// Every tree ties with itself, and only with itself: the order agrees with
/// equality.
pub proof fn lemma_order_agrees_with_equality(a: Tree, b: Tree)
    ensures
        (tree_order(a, b) == Order::Equal) <==> a == b,
{
    lemma_tree_same(a);
    if tree_order(a, b) == Order::Equal {
        lemma_tree_tie(a, b);
    }
}

/// Comparing in the other direction gives the mirrored outcome.
pub proof fn lemma_order_mirrors(a: Tree, b: Tree)
    ensures
        tree_order(b, a) == tree_order(a, b).flip(),
{
    lemma_tree_flip(a, b);
}

/// Of `a` before `b`, `a` equal to `b` and `b` before `a`, exactly one holds.
pub proof fn lemma_order_is_total(a: Tree, b: Tree)
    ensures
        tree_lt(a, b) || a == b || tree_lt(b, a),
        !(tree_lt(a, b) && a == b),
        !(tree_lt(b, a) && a == b),
        !(tree_lt(a, b) && tree_lt(b, a)),
{
    lemma_order_agrees_with_equality(a, b);
    lemma_tree_flip(a, b);
}

/// What comes before something that comes before `c` comes before `c`.
pub proof fn lemma_order_is_transitive(a: Tree, b: Tree, c: Tree)
    requires
        tree_lt(a, b),
        tree_lt(b, c),
    ensures
        tree_lt(a, c),
{
    lemma_tree_chain(a, b, c);
}

/// Two trees without children are ordered by tag, then by their integers.
pub proof fn lemma_leaf_order(a: Tree, b: Tree)
    requires
        a.kids.len() == 0,
        b.kids.len() == 0,
    ensures
        tree_order(a, b) == int_order(a.tag, b.tag).or(ints_order(a.atoms, b.atoms, 0)),
{
}

/// Two trees without integers are ordered by tag, then by their children.
pub proof fn lemma_node_order(a: Tree, b: Tree)
    requires
        a.atoms.len() == 0,
        b.atoms.len() == 0,
    ensures
        tree_order(a, b) == int_order(a.tag, b.tag).or(kids_order(a.kids, b.kids, 0)),
{
}

/// Runs of one integer are ordered as their entries.
pub proof fn lemma_ints_of_one(a: Seq<int>, b: Seq<int>)
    requires
        a.len() == 1,
        b.len() == 1,
    ensures
        ints_order(a, b, 0) == int_order(a[0], b[0]),
{
    reveal_with_fuel(ints_order, 2);
}

/// Runs of two integers are ordered by the first entries, then the second.
pub proof fn lemma_ints_of_two(a: Seq<int>, b: Seq<int>)
    requires
        a.len() == 2,
        b.len() == 2,
    ensures
        ints_order(a, b, 0) == int_order(a[0], b[0]).or(int_order(a[1], b[1])),
{
    reveal_with_fuel(ints_order, 3);
}

/// Runs of one tree are ordered as their entries.
pub proof fn lemma_kids_of_one(a: Seq<Tree>, b: Seq<Tree>)
    requires
        a.len() == 1,
        b.len() == 1,
    ensures
        kids_order(a, b, 0) == tree_order(a[0], b[0]),
{
    reveal_with_fuel(kids_order, 2);
}

/// Runs of two trees are ordered entry by entry.
pub proof fn lemma_kids_of_two(a: Seq<Tree>, b: Seq<Tree>)
    requires
        a.len() == 2,
        b.len() == 2,
    ensures
        kids_order(a, b, 0) == tree_order(a[0], b[0]).or(tree_order(a[1], b[1])),
{
    reveal_with_fuel(kids_order, 3);
}

/// Runs of three trees are ordered entry by entry.
pub proof fn lemma_kids_of_three(a: Seq<Tree>, b: Seq<Tree>)
    requires
        a.len() == 3,
        b.len() == 3,
    ensures
        kids_order(a, b, 0) == tree_order(a[0], b[0]).or(tree_order(a[1], b[1])).or(
            tree_order(a[2], b[2]),
        ),
{
    reveal_with_fuel(kids_order, 4);
}

/// Where the runs tie up to position `i`, the entries at `i` and the rest
/// decide.
pub proof fn lemma_kids_step(a: Seq<Tree>, b: Seq<Tree>, i: int)
    requires
        0 <= i < a.len(),
        i < b.len(),
    ensures
        kids_order(a, b, i) == tree_order(a[i], b[i]).or(kids_order(a, b, i + 1)),
{
}

/// Where one run is used up at position `i`, the lengths decide.
pub proof fn lemma_kids_end(a: Seq<Tree>, b: Seq<Tree>, i: int)
    requires
        i >= a.len() || i >= b.len(),
    ensures
        kids_order(a, b, i) == int_order(a.len() as int, b.len() as int),
{
}

} // verus!
