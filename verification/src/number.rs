//! Numbers: every integer width in both signednesses and the two floating
//! widths, each kept apart from the others, with a total order over all.
//!
//! A floating value is held as its IEEE 754 bit pattern. Its place in the
//! order is the one of the standard total order on such patterns: negative
//! not-a-number, negative infinity, the negative finite values, negative
//! zero, positive zero, the positive finite values, positive infinity,
//! positive not-a-number. Every not-a-number pattern is replaced on
//! construction by the quiet pattern of its sign, so that all of one sign are
//! one value.
use crate::order::{int_order, leaf, lemma_ints_of_two, lemma_leaf_order, tree_order, Order, Tree};
use crate::text::{decimal, signed_decimal, signed_text, unsigned_text};
use vstd::prelude::*;
use vstd::string::*;

verus! {

/// Whether a 32-bit pattern has its sign bit set.
pub open spec fn single_is_negative(bits: u32) -> bool {
    bits >= 0x8000_0000
}

/// A 32-bit pattern without its sign bit.
pub open spec fn single_magnitude(bits: u32) -> int {
    if bits >= 0x8000_0000 {
        bits - 0x8000_0000
    } else {
        bits as int
    }
}

/// Whether a 32-bit pattern is a not-a-number.
pub open spec fn single_is_nan(bits: u32) -> bool {
    single_magnitude(bits) > 0x7f80_0000
}

/// The pattern that is kept for `bits`: the quiet not-a-number of the same
/// sign where `bits` is a not-a-number, and `bits` itself otherwise.
pub open spec fn single_canonical(bits: u32) -> u32 {
    if single_is_nan(bits) {
        (bits - single_magnitude(bits) + 0x7fc0_0000) as u32
    } else {
        bits
    }
}

/// The place of a 32-bit pattern in the total order: the greater the
/// number, the greater the value.
pub open spec fn single_rank(bits: u32) -> int {
    if bits >= 0x8000_0000 {
        -1 - (bits - 0x8000_0000)
    } else {
        bits as int
    }
}

/// A 32-bit floating value, held as its bit pattern.
#[derive(Clone, Copy, Debug, PartialEq, Eq, Hash)]
pub struct F32 {
    bits: u32,
}

impl F32 {
    /// The bit pattern that is held.
    pub closed spec fn bits(self) -> u32 {
        self.bits
    }

    /// The place of the value in the total order.
    pub open spec fn rank(self) -> int {
        single_rank(self.bits())
    }

    #[verifier::type_invariant]
    spec fn kept_canonical(self) -> bool {
        single_canonical(self.bits) == self.bits
    }

    /// Wraps the value with the given bit pattern.
    #[must_use]
    pub fn new(bits: u32) -> (r: Self)
        ensures
            r.bits() == single_canonical(bits),
    {
        let sign: u32 = if bits >= 0x8000_0000 {
            0x8000_0000
        } else {
            0
        };
        let magnitude: u32 = bits - sign;
        if magnitude > 0x7f80_0000 {
            F32 { bits: sign + 0x7fc0_0000 }
        } else {
            F32 { bits }
        }
    }

    /// The bit pattern of the wrapped value.
    #[must_use]
    pub fn get(self) -> (r: u32)
        ensures
            r == self.bits(),
            single_canonical(r) == r,
    {
        proof {
            use_type_invariant(&self);
        }
        self.bits
    }

    /// Compares two values in the total order.
    pub fn compare(&self, other: &F32) -> (r: Order)
        ensures
            r == int_order(self.rank(), other.rank()),
    {
        let a: i64 = single_key(self.bits);
        let b: i64 = single_key(other.bits);
        if a < b {
            Order::Less
        } else if a == b {
            Order::Equal
        } else {
            Order::Greater
        }
    }
}

fn single_key(bits: u32) -> (r: i64)
    ensures
        r == single_rank(bits),
{
    if bits >= 0x8000_0000 {
        -1 - ((bits - 0x8000_0000) as i64)
    } else {
        bits as i64
    }
}

/// Two values with the same place in the order hold the same pattern.
pub proof fn lemma_single_rank_is_one_to_one(a: u32, b: u32)
    requires
        single_rank(a) == single_rank(b),
    ensures
        a == b,
{
}

/// All not-a-number patterns of one sign are kept as one and the same
/// pattern, which is itself a not-a-number of that sign.
pub proof fn lemma_single_nans_are_one(a: u32, b: u32)
    requires
        single_is_nan(a),
        single_is_nan(b),
        single_is_negative(a) == single_is_negative(b),
    ensures
        single_canonical(a) == single_canonical(b),
        single_is_nan(single_canonical(a)),
        single_is_negative(single_canonical(a)) == single_is_negative(a),
{
}

/// Keeping a pattern changes nothing the second time.
pub proof fn lemma_single_canonical_is_stable(a: u32)
    ensures
        single_canonical(single_canonical(a)) == single_canonical(a),
{
}

/// The pattern of negative infinity.
pub open spec fn single_negative_infinity() -> u32 {
    0xff80_0000
}

/// The pattern of positive infinity.
pub open spec fn single_infinity() -> u32 {
    0x7f80_0000
}

/// The pattern of negative zero. Positive zero is the pattern 0.
pub open spec fn single_negative_zero() -> u32 {
    0x8000_0000
}

/// The bands of the total order: a negative not-a-number lies below
/// negative infinity, every negative number lies at or below negative zero,
/// which lies below positive zero, every positive number lies at or above
/// that and up to positive infinity, and a positive not-a-number lies above
/// positive infinity. Within one sign the numbers follow their magnitudes.
pub proof fn lemma_single_bands(x: u32)
    ensures
        single_is_nan(x) && single_is_negative(x) ==> single_rank(x) < single_rank(
            single_negative_infinity(),
        ),
        single_is_nan(x) && !single_is_negative(x) ==> single_rank(x) > single_rank(
            single_infinity(),
        ),
        !single_is_nan(x) ==> single_rank(single_negative_infinity()) <= single_rank(x)
            <= single_rank(single_infinity()),
        single_is_negative(x) ==> single_rank(x) <= single_rank(single_negative_zero()),
        single_rank(single_negative_zero()) < single_rank(0),
        !single_is_negative(x) ==> single_rank(0) <= single_rank(x),
        single_is_negative(x) ==> single_rank(x) == -1 - single_magnitude(x),
        !single_is_negative(x) ==> single_rank(x) == single_magnitude(x),
{
}

/// Whether a 64-bit pattern has its sign bit set.
pub open spec fn double_is_negative(bits: u64) -> bool {
    bits >= 0x8000_0000_0000_0000
}

/// A 64-bit pattern without its sign bit.
pub open spec fn double_magnitude(bits: u64) -> int {
    if bits >= 0x8000_0000_0000_0000 {
        bits - 0x8000_0000_0000_0000
    } else {
        bits as int
    }
}

/// Whether a 64-bit pattern is a not-a-number.
pub open spec fn double_is_nan(bits: u64) -> bool {
    double_magnitude(bits) > 0x7ff0_0000_0000_0000
}

/// The pattern that is kept for `bits`: the quiet not-a-number of the same
/// sign where `bits` is a not-a-number, and `bits` itself otherwise.
pub open spec fn double_canonical(bits: u64) -> u64 {
    if double_is_nan(bits) {
        (bits - double_magnitude(bits) + 0x7ff8_0000_0000_0000) as u64
    } else {
        bits
    }
}

/// The place of a 64-bit pattern in the total order: the greater the
/// number, the greater the value.
pub open spec fn double_rank(bits: u64) -> int {
    if bits >= 0x8000_0000_0000_0000 {
        -1 - (bits - 0x8000_0000_0000_0000)
    } else {
        bits as int
    }
}

/// A 64-bit floating value, held as its bit pattern.
#[derive(Clone, Copy, Debug, PartialEq, Eq, Hash)]
pub struct F64 {
    bits: u64,
}

impl F64 {
    /// The bit pattern that is held.
    pub closed spec fn bits(self) -> u64 {
        self.bits
    }

    /// The place of the value in the total order.
    pub open spec fn rank(self) -> int {
        double_rank(self.bits())
    }

    #[verifier::type_invariant]
    spec fn kept_canonical(self) -> bool {
        double_canonical(self.bits) == self.bits
    }

    /// Wraps the value with the given bit pattern.
    #[must_use]
    pub fn new(bits: u64) -> (r: Self)
        ensures
            r.bits() == double_canonical(bits),
    {
        let sign: u64 = if bits >= 0x8000_0000_0000_0000 {
            0x8000_0000_0000_0000
        } else {
            0
        };
        let magnitude: u64 = bits - sign;
        if magnitude > 0x7ff0_0000_0000_0000 {
            F64 { bits: sign + 0x7ff8_0000_0000_0000 }
        } else {
            F64 { bits }
        }
    }

    /// The bit pattern of the wrapped value.
    #[must_use]
    pub fn get(self) -> (r: u64)
        ensures
            r == self.bits(),
            double_canonical(r) == r,
    {
        proof {
            use_type_invariant(&self);
        }
        self.bits
    }

    /// Compares two values in the total order.
    pub fn compare(&self, other: &F64) -> (r: Order)
        ensures
            r == int_order(self.rank(), other.rank()),
    {
        let a: i128 = double_key(self.bits);
        let b: i128 = double_key(other.bits);
        if a < b {
            Order::Less
        } else if a == b {
            Order::Equal
        } else {
            Order::Greater
        }
    }
}

fn double_key(bits: u64) -> (r: i128)
    ensures
        r == double_rank(bits),
{
    if bits >= 0x8000_0000_0000_0000 {
        -1 - ((bits - 0x8000_0000_0000_0000) as i128)
    } else {
        bits as i128
    }
}

/// Two values with the same place in the order hold the same pattern.
pub proof fn lemma_double_rank_is_one_to_one(a: u64, b: u64)
    requires
        double_rank(a) == double_rank(b),
    ensures
        a == b,
{
}

/// All not-a-number patterns of one sign are kept as one and the same
/// pattern, which is itself a not-a-number of that sign.
pub proof fn lemma_double_nans_are_one(a: u64, b: u64)
    requires
        double_is_nan(a),
        double_is_nan(b),
        double_is_negative(a) == double_is_negative(b),
    ensures
        double_canonical(a) == double_canonical(b),
        double_is_nan(double_canonical(a)),
        double_is_negative(double_canonical(a)) == double_is_negative(a),
{
}

/// Keeping a pattern changes nothing the second time.
pub proof fn lemma_double_canonical_is_stable(a: u64)
    ensures
        double_canonical(double_canonical(a)) == double_canonical(a),
{
}

/// The pattern of negative infinity.
pub open spec fn double_negative_infinity() -> u64 {
    0xfff0_0000_0000_0000
}

/// The pattern of positive infinity.
pub open spec fn double_infinity() -> u64 {
    0x7ff0_0000_0000_0000
}

/// The pattern of negative zero. Positive zero is the pattern 0.
pub open spec fn double_negative_zero() -> u64 {
    0x8000_0000_0000_0000
}

/// The bands of the total order: a negative not-a-number lies below
/// negative infinity, every negative number lies at or below negative zero,
/// which lies below positive zero, every positive number lies at or above
/// that and up to positive infinity, and a positive not-a-number lies above
/// positive infinity. Within one sign the numbers follow their magnitudes.
pub proof fn lemma_double_bands(x: u64)
    ensures
        double_is_nan(x) && double_is_negative(x) ==> double_rank(x) < double_rank(
            double_negative_infinity(),
        ),
        double_is_nan(x) && !double_is_negative(x) ==> double_rank(x) > double_rank(
            double_infinity(),
        ),
        !double_is_nan(x) ==> double_rank(double_negative_infinity()) <= double_rank(x)
            <= double_rank(double_infinity()),
        double_is_negative(x) ==> double_rank(x) <= double_rank(double_negative_zero()),
        double_rank(double_negative_zero()) < double_rank(0),
        !double_is_negative(x) ==> double_rank(0) <= double_rank(x),
        double_is_negative(x) ==> double_rank(x) == -1 - double_magnitude(x),
        !double_is_negative(x) ==> double_rank(x) == double_magnitude(x),
{
}

/// A number of one of twelve kinds. The kind is part of the value: numbers of
/// different kinds are different numbers, whatever they hold.
#[derive(Clone, Copy, Debug, PartialEq, Eq, Hash)]
pub enum Number {
    U8(u8),
    U16(u16),
    U32(u32),
    U64(u64),
    U128(u128),
    I8(i8),
    I16(i16),
    I32(i32),
    I64(i64),
    I128(i128),
    F32(F32),
    F64(F64),
}

/// The tag of the tree that models a number.
pub open spec fn number_tag() -> int {
    3
}

impl Number {
    /// The position of the number's kind among the twelve kinds.
    pub open spec fn kind(self) -> int {
        match self {
            Number::U8(_) => 0,
            Number::U16(_) => 1,
            Number::U32(_) => 2,
            Number::U64(_) => 3,
            Number::U128(_) => 4,
            Number::I8(_) => 5,
            Number::I16(_) => 6,
            Number::I32(_) => 7,
            Number::I64(_) => 8,
            Number::I128(_) => 9,
            Number::F32(_) => 10,
            Number::F64(_) => 11,
        }
    }

    /// The place of the number among the numbers of its kind.
    pub open spec fn rank(self) -> int {
        match self {
            Number::U8(v) => v as int,
            Number::U16(v) => v as int,
            Number::U32(v) => v as int,
            Number::U64(v) => v as int,
            Number::U128(v) => v as int,
            Number::I8(v) => v as int,
            Number::I16(v) => v as int,
            Number::I32(v) => v as int,
            Number::I64(v) => v as int,
            Number::I128(v) => v as int,
            Number::F32(v) => v.rank(),
            Number::F64(v) => v.rank(),
        }
    }

    /// The tree that models the number: its kind, then its place in the kind.
    pub open spec fn model(self) -> Tree {
        leaf(number_tag(), seq![self.kind(), self.rank()])
    }

    /// The order of two numbers: by kind first, and within a kind by value.
    pub open spec fn order(self, other: Number) -> Order {
        int_order(self.kind(), other.kind()).or(int_order(self.rank(), other.rank()))
    }

    /// The text of the number. An integer is written in decimal. A floating
    /// value is written as the decimal form of its bit pattern, followed by a
    /// mark that names its width.
    pub open spec fn text(self) -> Seq<char> {
        match self {
            Number::U8(v) => decimal(v as nat),
            Number::U16(v) => decimal(v as nat),
            Number::U32(v) => decimal(v as nat),
            Number::U64(v) => decimal(v as nat),
            Number::U128(v) => decimal(v as nat),
            Number::I8(v) => signed_decimal(v as int),
            Number::I16(v) => signed_decimal(v as int),
            Number::I32(v) => signed_decimal(v as int),
            Number::I64(v) => signed_decimal(v as int),
            Number::I128(v) => signed_decimal(v as int),
            Number::F32(v) => decimal(v.bits() as nat) + single_suffix(),
            Number::F64(v) => decimal(v.bits() as nat) + double_suffix(),
        }
    }

    fn kind_index(&self) -> (r: u8)
        ensures
            r == self.kind(),
    {
        match self {
            Number::U8(_) => 0,
            Number::U16(_) => 1,
            Number::U32(_) => 2,
            Number::U64(_) => 3,
            Number::U128(_) => 4,
            Number::I8(_) => 5,
            Number::I16(_) => 6,
            Number::I32(_) => 7,
            Number::I64(_) => 8,
            Number::I128(_) => 9,
            Number::F32(_) => 10,
            Number::F64(_) => 11,
        }
    }

    /// Compares two numbers in the total order.
    pub fn compare(&self, other: &Number) -> (r: Order)
        ensures
            r == self.order(*other),
            r == tree_order(self.model(), other.model()),
    {
        proof {
            lemma_number_order(*self, *other);
        }
        match (*self, *other) {
            (Number::U8(a), Number::U8(b)) => Order::of_unsigned(a as u128, b as u128),
            (Number::U16(a), Number::U16(b)) => Order::of_unsigned(a as u128, b as u128),
            (Number::U32(a), Number::U32(b)) => Order::of_unsigned(a as u128, b as u128),
            (Number::U64(a), Number::U64(b)) => Order::of_unsigned(a as u128, b as u128),
            (Number::U128(a), Number::U128(b)) => Order::of_unsigned(a as u128, b as u128),
            (Number::I8(a), Number::I8(b)) => Order::of_signed(a as i128, b as i128),
            (Number::I16(a), Number::I16(b)) => Order::of_signed(a as i128, b as i128),
            (Number::I32(a), Number::I32(b)) => Order::of_signed(a as i128, b as i128),
            (Number::I64(a), Number::I64(b)) => Order::of_signed(a as i128, b as i128),
            (Number::I128(a), Number::I128(b)) => Order::of_signed(a as i128, b as i128),
            (Number::F32(a), Number::F32(b)) => a.compare(&b),
            (Number::F64(a), Number::F64(b)) => a.compare(&b),
            _ => Order::of_unsigned(self.kind_index() as u128, other.kind_index() as u128),
        }
    }

    /// Writes the number.
    pub fn render(&self) -> (r: String)
        ensures
            r@ == self.text(),
    {
        match *self {
            Number::U8(v) => unsigned_text(v as u128),
            Number::U16(v) => unsigned_text(v as u128),
            Number::U32(v) => unsigned_text(v as u128),
            Number::U64(v) => unsigned_text(v as u128),
            Number::U128(v) => unsigned_text(v as u128),
            Number::I8(v) => signed_text(v as i128),
            Number::I16(v) => signed_text(v as i128),
            Number::I32(v) => signed_text(v as i128),
            Number::I64(v) => signed_text(v as i128),
            Number::I128(v) => signed_text(v as i128),
            Number::F32(v) => {
                proof {
                    reveal_strlit("f32bits");
                }
                let r = unsigned_text(v.get() as u128).concat("f32bits");
                assert(r@ =~= self.text());
                r
            },
            Number::F64(v) => {
                proof {
                    reveal_strlit("f64bits");
                }
                let r = unsigned_text(v.get() as u128).concat("f64bits");
                assert(r@ =~= self.text());
                r
            },
        }
    }

    #[inline]
    pub fn is_u8(&self) -> (r: bool)
        ensures
            r == (*self is U8),
    {
        matches!(self, Number::U8(_))
    }

    #[inline]
    pub fn as_u8(&self) -> (r: Option<u8>)
        ensures
            r == (match *self {
                Number::U8(v) => Some(v),
                _ => None,
            }),
    {
        match *self {
            Number::U8(v) => Some(v),
            _ => None,
        }
    }

    #[inline]
    pub fn is_u16(&self) -> (r: bool)
        ensures
            r == (*self is U16),
    {
        matches!(self, Number::U16(_))
    }

    #[inline]
    pub fn as_u16(&self) -> (r: Option<u16>)
        ensures
            r == (match *self {
                Number::U16(v) => Some(v),
                _ => None,
            }),
    {
        match *self {
            Number::U16(v) => Some(v),
            _ => None,
        }
    }

    #[inline]
    pub fn is_u32(&self) -> (r: bool)
        ensures
            r == (*self is U32),
    {
        matches!(self, Number::U32(_))
    }

    #[inline]
    pub fn as_u32(&self) -> (r: Option<u32>)
        ensures
            r == (match *self {
                Number::U32(v) => Some(v),
                _ => None,
            }),
    {
        match *self {
            Number::U32(v) => Some(v),
            _ => None,
        }
    }

    #[inline]
    pub fn is_u64(&self) -> (r: bool)
        ensures
            r == (*self is U64),
    {
        matches!(self, Number::U64(_))
    }

    #[inline]
    pub fn as_u64(&self) -> (r: Option<u64>)
        ensures
            r == (match *self {
                Number::U64(v) => Some(v),
                _ => None,
            }),
    {
        match *self {
            Number::U64(v) => Some(v),
            _ => None,
        }
    }

    #[inline]
    pub fn is_u128(&self) -> (r: bool)
        ensures
            r == (*self is U128),
    {
        matches!(self, Number::U128(_))
    }

    #[inline]
    pub fn as_u128(&self) -> (r: Option<u128>)
        ensures
            r == (match *self {
                Number::U128(v) => Some(v),
                _ => None,
            }),
    {
        match *self {
            Number::U128(v) => Some(v),
            _ => None,
        }
    }

    #[inline]
    pub fn is_i8(&self) -> (r: bool)
        ensures
            r == (*self is I8),
    {
        matches!(self, Number::I8(_))
    }

    #[inline]
    pub fn as_i8(&self) -> (r: Option<i8>)
        ensures
            r == (match *self {
                Number::I8(v) => Some(v),
                _ => None,
            }),
    {
        match *self {
            Number::I8(v) => Some(v),
            _ => None,
        }
    }

    #[inline]
    pub fn is_i16(&self) -> (r: bool)
        ensures
            r == (*self is I16),
    {
        matches!(self, Number::I16(_))
    }

    #[inline]
    pub fn as_i16(&self) -> (r: Option<i16>)
        ensures
            r == (match *self {
                Number::I16(v) => Some(v),
                _ => None,
            }),
    {
        match *self {
            Number::I16(v) => Some(v),
            _ => None,
        }
    }

    #[inline]
    pub fn is_i32(&self) -> (r: bool)
        ensures
            r == (*self is I32),
    {
        matches!(self, Number::I32(_))
    }

    #[inline]
    pub fn as_i32(&self) -> (r: Option<i32>)
        ensures
            r == (match *self {
                Number::I32(v) => Some(v),
                _ => None,
            }),
    {
        match *self {
            Number::I32(v) => Some(v),
            _ => None,
        }
    }

    #[inline]
    pub fn is_i64(&self) -> (r: bool)
        ensures
            r == (*self is I64),
    {
        matches!(self, Number::I64(_))
    }

    #[inline]
    pub fn as_i64(&self) -> (r: Option<i64>)
        ensures
            r == (match *self {
                Number::I64(v) => Some(v),
                _ => None,
            }),
    {
        match *self {
            Number::I64(v) => Some(v),
            _ => None,
        }
    }

    #[inline]
    pub fn is_i128(&self) -> (r: bool)
        ensures
            r == (*self is I128),
    {
        matches!(self, Number::I128(_))
    }

    #[inline]
    pub fn as_i128(&self) -> (r: Option<i128>)
        ensures
            r == (match *self {
                Number::I128(v) => Some(v),
                _ => None,
            }),
    {
        match *self {
            Number::I128(v) => Some(v),
            _ => None,
        }
    }

    #[inline]
    pub fn is_f32(&self) -> (r: bool)
        ensures
            r == (*self is F32),
    {
        matches!(self, Number::F32(_))
    }

    /// The bit pattern of the floating value, where the number is one of
    /// this kind.
    #[inline]
    pub fn as_f32(&self) -> (r: Option<u32>)
        ensures
            r == (match *self {
                Number::F32(v) => Some(v.bits()),
                _ => None,
            }),
    {
        match *self {
            Number::F32(v) => Some(v.get()),
            _ => None,
        }
    }

    #[inline]
    pub fn is_f64(&self) -> (r: bool)
        ensures
            r == (*self is F64),
    {
        matches!(self, Number::F64(_))
    }

    /// The bit pattern of the floating value, where the number is one of
    /// this kind.
    #[inline]
    pub fn as_f64(&self) -> (r: Option<u64>)
        ensures
            r == (match *self {
                Number::F64(v) => Some(v.bits()),
                _ => None,
            }),
    {
        match *self {
            Number::F64(v) => Some(v.get()),
            _ => None,
        }
    }
}

/// What follows the bit pattern in the text of a 32-bit floating value.
pub open spec fn single_suffix() -> Seq<char> {
    seq!['f', '3', '2', 'b', 'i', 't', 's']
}

/// What follows the bit pattern in the text of a 64-bit floating value.
pub open spec fn double_suffix() -> Seq<char> {
    seq!['f', '6', '4', 'b', 'i', 't', 's']
}

/// The order of the trees that model two numbers is the order of the
/// numbers.
pub proof fn lemma_number_order(a: Number, b: Number)
    ensures
        tree_order(a.model(), b.model()) == a.order(b),
{
    lemma_leaf_order(a.model(), b.model());
    lemma_ints_of_two(a.model().atoms, b.model().atoms);
}

/// Different numbers have different models.
pub proof fn lemma_number_model_is_one_to_one(a: Number, b: Number)
    requires
        a.model() == b.model(),
    ensures
        a == b,
{
    assert(a.model().atoms[0] == a.kind());
    assert(b.model().atoms[0] == b.kind());
    assert(a.model().atoms[1] == a.rank());
    assert(b.model().atoms[1] == b.rank());
    match (a, b) {
        (Number::F32(x), Number::F32(y)) => {
            lemma_single_rank_is_one_to_one(x.bits(), y.bits());
        },
        (Number::F64(x), Number::F64(y)) => {
            lemma_double_rank_is_one_to_one(x.bits(), y.bits());
        },
        _ => {},
    }
}

/// Numbers of different kinds are never equal, and neither are their
/// models, whatever they hold.
pub proof fn lemma_kinds_stay_apart(a: Number, b: Number)
    requires
        a.kind() != b.kind(),
    ensures
        a != b,
        a.model() != b.model(),
        a.order(b) != Order::Equal,
{
    assert(a.model().atoms[0] == a.kind());
    assert(b.model().atoms[0] == b.kind());
}

/// Within one kind of integer the order is the order of the integers.
pub proof fn lemma_same_kind_follows_value(a: Number, b: Number)
    requires
        a.kind() == b.kind(),
    ensures
        a.order(b) == int_order(a.rank(), b.rank()),
{
}

impl Default for Number {
    fn default() -> (r: Self)
        ensures
            r == Number::I32(0),
    {
        Number::I32(0)
    }
}

} // verus!
