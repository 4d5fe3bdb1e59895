//! Exact decimal numbers for currency amounts.
//!
//! A [`Decimal`] is a sign, a string of base-ten digits and a scale: the
//! number of those digits that stand after the decimal point. Nothing is ever
//! rounded. Reading a decimal from text and writing it back are left to the
//! `bigdecimal` crate; ordering is decided here, digit by digit.
//!
//! A decimal keeps to the sizes that a `NUMERIC` column of the store can
//! take when the value is sent to it in binary form: digits in groups of
//! four, the count of groups and their weight in sixteen bits each.

use bigdecimal::num_bigint::BigInt;
use bigdecimal::num_bigint::Sign;
use bigdecimal::BigDecimal;
use std::str::FromStr;
use vstd::arithmetic::power::lemma_pow0;
use vstd::arithmetic::power::lemma_pow_adds;
use vstd::arithmetic::power::lemma_pow_positive;
use vstd::arithmetic::power::pow;
use vstd::prelude::*;

verus! {

/// The most digits a decimal may carry in all: 32 766 groups of four.
pub const MAX_DIGITS: usize = 131_064;

/// The most digits that may stand after the decimal point: what the store
/// counts them with.
pub const MAX_SCALE: i64 = 32_767;

/// The most digits that may stand before the decimal point.
pub const MAX_INTEGER_DIGITS: i64 = 131_072;

/// The mathematical content of a [`Decimal`]: the number `unscaled / 10^scale`.
pub struct DecimalView {
    pub unscaled: int,
    pub scale: int,
}

/// Every element is a base-ten digit.
pub open spec fn is_digits(s: Seq<u8>) -> bool {
    forall|i: int| 0 <= i < s.len() ==> s[i] < 10
}

/// The natural number written by `s`, most significant digit first.
pub open spec fn digits_value(s: Seq<u8>) -> nat
    decreases s.len(),
{
    if s.len() == 0 {
        0
    } else {
        digits_value(s.drop_last()) * 10 + s.last() as nat
    }
}

/// `k` zero digits.
pub open spec fn zeros(k: nat) -> Seq<u8> {
    Seq::new(k, |i: int| 0u8)
}

/// The sizes a decimal must keep to: between one and [`MAX_DIGITS`] digits,
/// at most [`MAX_SCALE`] of them after the point and at most
/// [`MAX_INTEGER_DIGITS`] before it.
pub open spec fn in_range(digits: Seq<u8>, scale: int) -> bool {
    &&& 1 <= digits.len() <= MAX_DIGITS
    &&& is_digits(digits)
    &&& scale <= MAX_SCALE
    &&& digits.len() - scale <= MAX_INTEGER_DIGITS
}

/// The number that a sign, a digit string and a scale stand for.
pub open spec fn decimal_view(negative: bool, digits: Seq<u8>, scale: int) -> DecimalView {
    DecimalView {
        unscaled: if negative {
            -(digits_value(digits) as int)
        } else {
            digits_value(digits) as int
        },
        scale,
    }
}

/// The number as the store receives it: the same number, with no fewer than
/// zero digits after the point. A negative scale is written out as zeros.
pub open spec fn as_sent(v: DecimalView) -> DecimalView {
    if v.scale >= 0 {
        v
    } else {
        DecimalView { unscaled: v.unscaled * pow(10, (-v.scale) as nat), scale: 0 }
    }
}

/// `v` written with `scale` digits after the point, as an integer.
/// Meaningful for `scale >= v.scale`.
pub open spec fn aligned(v: DecimalView, scale: int) -> int {
    v.unscaled * pow(10, (scale - v.scale) as nat)
}

/// The larger of two scales.
pub open spec fn common_scale(a: DecimalView, b: DecimalView) -> int {
    if a.scale >= b.scale {
        a.scale
    } else {
        b.scale
    }
}

/// Numeric order: `a <= b` as numbers, whatever their scales.
pub open spec fn decimal_le(a: DecimalView, b: DecimalView) -> bool {
    aligned(a, common_scale(a, b)) <= aligned(b, common_scale(a, b))
}

/// What `BigDecimal::from_str` makes of a text: nothing where it reports an
/// error, else the sign, the base-ten digits (most significant first) and the
/// scale of the number it read.
pub uninterp spec fn parsed_decimal(text: Seq<char>) -> Option<(bool, Seq<u8>, int)>;

/// What `BigDecimal`'s `Display` writes for the number `unscaled / 10^scale`.
pub uninterp spec fn decimal_text(unscaled: int, scale: int) -> Seq<char>;

/// What a text is when it is read as a decimal.
pub enum ReadingView {
    /// A number within the sizes of [`in_range`].
    Number(DecimalView),
    /// A number, but one beyond those sizes.
    OutOfRange,
    /// No decimal number at all.
    NoDecimal,
}

/// What a text is when it is read as a decimal: what the parser made of it,
/// held against the sizes of [`in_range`].
pub open spec fn reading_of(text: Seq<char>) -> ReadingView {
    match parsed_decimal(text) {
        Some((negative, digits, scale)) => if in_range(digits, scale) {
            ReadingView::Number(decimal_view(negative, digits, scale))
        } else {
            ReadingView::OutOfRange
        },
        None => ReadingView::NoDecimal,
    }
}

/// The decimal that a text denotes: what the parser read, where it read
/// something that keeps to the sizes of [`in_range`].
pub open spec fn decimal_of_text(text: Seq<char>) -> Option<DecimalView> {
    match parsed_decimal(text) {
        Some((negative, digits, scale)) => if in_range(digits, scale) {
            Some(decimal_view(negative, digits, scale))
        } else {
            None
        },
        None => None,
    }
}

/// Calls `BigDecimal::from_str` and takes the number apart with
/// `into_bigint_and_exponent` and `BigInt::to_radix_be`. Trusted: the outcome
/// is the one named [`parsed_decimal`]; the digits handed out are base-ten
/// digits, at least one of them, and the scale is the `i64` that the crate
/// keeps.
#[verifier::external_body]
fn parse_parts(text: &str) -> (r: Option<(bool, Vec<u8>, i64)>)
    ensures
        match r {
            Some((negative, digits, scale)) => {
                &&& parsed_decimal(text@) == Some((negative, digits@, scale as int))
                &&& is_digits(digits@)
                &&& digits@.len() >= 1
            },
            None => parsed_decimal(text@) is None,
        },
{
    match BigDecimal::from_str(text) {
        Ok(number) => {
            let (unscaled, scale) = number.into_bigint_and_exponent();
            let (sign, digits) = unscaled.to_radix_be(10);
            Some((matches!(sign, Sign::Minus), digits, scale))
        },
        Err(_) => None,
    }
}

/// Builds the `BigDecimal` with `BigInt::from_radix_be` and `BigDecimal::new`
/// and calls its `to_string`. Trusted: the text is the one named
/// [`decimal_text`] for the number that the parts stand for.
#[verifier::external_body]
fn render_parts(negative: bool, digits: &Vec<u8>, scale: i64) -> (r: String)
    requires
        is_digits(digits@),
    ensures
        r@ == decimal_text(
            decimal_view(negative, digits@, scale as int).unscaled,
            scale as int,
        ),
{
    let sign = if negative {
        Sign::Minus
    } else {
        Sign::Plus
    };
    let unscaled = BigInt::from_radix_be(sign, digits, 10).unwrap();
    BigDecimal::new(unscaled, scale).to_string()
}

/// How one number stands to another.
#[derive(Clone, Copy, PartialEq, Eq, Structural)]
enum Rank {
    Below,
    Level,
    Above,
}

/// How `a` stands to `b`.
spec fn rank_of(a: int, b: int) -> Rank {
    if a < b {
        Rank::Below
    } else if a == b {
        Rank::Level
    } else {
        Rank::Above
    }
}

/// An exact decimal number within the sizes of [`in_range`].
#[derive(Debug)]
pub struct Decimal {
    negative: bool,
    digits: Vec<u8>,
    scale: i64,
}

/// What came of reading a text as a decimal.
#[derive(Debug)]
pub enum Reading {
    /// A number within the sizes of [`in_range`].
    Number(Decimal),
    /// A number, but one beyond those sizes.
    OutOfRange,
    /// No decimal number at all.
    NoDecimal,
}

impl View for Reading {
    type V = ReadingView;

    open spec fn view(&self) -> ReadingView {
        match self {
            Reading::Number(number) => ReadingView::Number(number@),
            Reading::OutOfRange => ReadingView::OutOfRange,
            Reading::NoDecimal => ReadingView::NoDecimal,
        }
    }
}

impl View for Decimal {
    type V = DecimalView;

    closed spec fn view(&self) -> DecimalView {
        decimal_view(self.negative, self.digits@, self.scale as int)
    }
}

impl Clone for Decimal {
    fn clone(&self) -> (r: Self)
        ensures
            r@ == self@,
    {
        proof {
            use_type_invariant(self);
        }
        Decimal { negative: self.negative, digits: self.digits.clone(), scale: self.scale }
    }
}

impl Decimal {
    #[verifier::type_invariant]
    spec fn well_formed(self) -> bool {
        in_range(self.digits@, self.scale as int)
    }

    /// The digits of the number, most significant first, without the sign.
    pub closed spec fn spec_digits(&self) -> Seq<u8> {
        self.digits@
    }

    /// Whether the sign is set. Zero may carry it.
    pub closed spec fn spec_negative(&self) -> bool {
        self.negative
    }

    /// How many of the digits stand after the decimal point.
    pub closed spec fn spec_scale(&self) -> int {
        self.scale as int
    }

    /// The decimal with the given sign, digits (most significant first) and
    /// scale, where they keep to the sizes of [`in_range`].
    pub fn from_parts(negative: bool, digits: Vec<u8>, scale: i64) -> (r: Option<Decimal>)
        ensures
            match r {
                Some(d) => {
                    &&& in_range(digits@, scale as int)
                    &&& d@ == decimal_view(negative, digits@, scale as int)
                    &&& d.spec_negative() == negative
                    &&& d.spec_digits() == digits@
                    &&& d.spec_scale() == scale
                },
                None => !in_range(digits@, scale as int),
            },
    {
        let n: usize = digits.len();
        if n < 1 || n > MAX_DIGITS || scale > MAX_SCALE {
            return None;
        }
        let length: i64 = n as i64;
        if scale < length - MAX_INTEGER_DIGITS {
            return None;
        }
        if !all_digits(&digits) {
            return None;
        }
        Some(Decimal { negative, digits, scale })
    }

    /// Reads a decimal from text and says which of three things the text
    /// is: a number within the sizes of [`in_range`], a number beyond them,
    /// or no decimal number.
    pub fn read(text: &str) -> (r: Reading)
        ensures
            r@ == reading_of(text@),
    {
        match parse_parts(text) {
            Some((negative, digits, scale)) => match Decimal::from_parts(negative, digits, scale) {
                Some(number) => Reading::Number(number),
                None => Reading::OutOfRange,
            },
            None => Reading::NoDecimal,
        }
    }

    /// Reads a decimal from text. `None` where the text is no decimal number
    /// or the number is beyond the sizes of [`in_range`].
    pub fn parse(text: &str) -> (r: Option<Decimal>)
        ensures
            match r {
                Some(d) => decimal_of_text(text@) == Some(d@),
                None => decimal_of_text(text@) is None,
            },
    {
        match parse_parts(text) {
            Some((negative, digits, scale)) => Decimal::from_parts(negative, digits, scale),
            None => None,
        }
    }

    /// The decimal as text.
    pub fn to_text(&self) -> (r: String)
        ensures
            r@ == decimal_text(self@.unscaled, self@.scale),
    {
        proof {
            use_type_invariant(self);
        }
        render_parts(self.negative, &self.digits, self.scale)
    }

    /// The sign, the digits and the scale.
    pub fn parts(&self) -> (r: (bool, &Vec<u8>, i64))
        ensures
            r.0 == self.spec_negative(),
            r.1@ == self.spec_digits(),
            r.2 == self.spec_scale(),
            in_range(r.1@, r.2 as int),
            self@ == decimal_view(r.0, r.1@, r.2 as int),
    {
        proof {
            use_type_invariant(self);
        }
        (self.negative, &self.digits, self.scale)
    }

    /// Whether `self <= other` as numbers.
    pub fn le(&self, other: &Decimal) -> (r: bool)
        ensures
            r == decimal_le(self@, other@),
    {
        proof {
            use_type_invariant(self);
            use_type_invariant(other);
        }
        let top: i64 = if self.scale >= other.scale {
            self.scale
        } else {
            other.scale
        };
        let trail_a: usize = (top - self.scale) as usize;
        let trail_b: usize = (top - other.scale) as usize;
        let width_a: usize = self.digits.len() + trail_a;
        let width_b: usize = other.digits.len() + trail_b;
        let width: usize = if width_a >= width_b {
            width_a
        } else {
            width_b
        };
        let a: Vec<u8> = padded(&self.digits, width - width_a, trail_a);
        let b: Vec<u8> = padded(&other.digits, width - width_b, trail_b);
        let rank: Rank = magnitude_rank(&a, &b);
        let ghost ma: int = digits_value(self.digits@) as int;
        let ghost mb: int = digits_value(other.digits@) as int;
        let ghost pa: int = pow(10, trail_a as nat);
        let ghost pb: int = pow(10, trail_b as nat);
        proof {
            lemma_pow_positive(10, trail_a as nat);
            lemma_pow_positive(10, trail_b as nat);
            lemma_sign_scales(ma, pa);
            lemma_sign_scales(mb, pb);
            assert(rank == rank_of(ma * pa, mb * pb));
            assert(aligned(self@, top as int) == self@.unscaled * pa);
            assert(aligned(other@, top as int) == other@.unscaled * pb);
        }
        if self.negative {
            if other.negative {
                !matches!(rank, Rank::Below)
            } else {
                true
            }
        } else {
            if other.negative {
                let zero_a: bool = all_zero(&self.digits);
                let zero_b: bool = all_zero(&other.digits);
                proof {
                    lemma_zero_product(ma, pa);
                    lemma_zero_product(mb, pb);
                }
                zero_a && zero_b
            } else {
                !matches!(rank, Rank::Above)
            }
        }
    }
}

/// Whether every element is a base-ten digit.
fn all_digits(digits: &Vec<u8>) -> (r: bool)
    ensures
        r == is_digits(digits@),
{
    let mut i: usize = 0;
    while i < digits.len()
        invariant
            i <= digits.len(),
            forall|j: int| 0 <= j < i ==> digits@[j] < 10,
        decreases digits.len() - i,
    {
        if digits[i] >= 10 {
            return false;
        }
        i += 1;
    }
    true
}

/// Whether the digits write the number zero.
fn all_zero(digits: &Vec<u8>) -> (r: bool)
    ensures
        r == (digits_value(digits@) == 0),
{
    let mut zero: bool = true;
    let mut i: usize = 0;
    while i < digits.len()
        invariant
            i <= digits.len(),
            zero == (digits_value(digits@.take(i as int)) == 0),
        decreases digits.len() - i,
    {
        proof {
            lemma_take_step(digits@, i as int);
        }
        if digits[i] != 0 {
            zero = false;
        }
        i += 1;
    }
    assert(digits@.take(digits.len() as int) =~= digits@);
    zero
}

/// `digits` between `lead` zeros in front and `trail` zeros behind.
fn padded(digits: &Vec<u8>, lead: usize, trail: usize) -> (r: Vec<u8>)
    requires
        is_digits(digits@),
        lead + digits.len() + trail <= usize::MAX,
    ensures
        r@ == zeros(lead as nat) + digits@ + zeros(trail as nat),
        is_digits(r@),
        digits_value(r@) == digits_value(digits@) * pow(10, trail as nat),
{
    let mut out: Vec<u8> = Vec::new();
    let mut i: usize = 0;
    while i < lead
        invariant
            i <= lead,
            out@ == zeros(i as nat),
        decreases lead - i,
    {
        out.push(0u8);
        i += 1;
        assert(out@ =~= zeros(i as nat));
    }
    let mut j: usize = 0;
    while j < digits.len()
        invariant
            j <= digits.len(),
            out@ == zeros(lead as nat) + digits@.take(j as int),
        decreases digits.len() - j,
    {
        out.push(digits[j]);
        j += 1;
        assert(out@ =~= zeros(lead as nat) + digits@.take(j as int));
    }
    assert(digits@.take(digits.len() as int) =~= digits@);
    let mut k: usize = 0;
    while k < trail
        invariant
            k <= trail,
            out@ == zeros(lead as nat) + digits@ + zeros(k as nat),
        decreases trail - k,
    {
        out.push(0u8);
        k += 1;
        assert(out@ =~= zeros(lead as nat) + digits@ + zeros(k as nat));
    }
    proof {
        lemma_leading_zeros(lead as nat, digits@);
        lemma_trailing_zeros(zeros(lead as nat) + digits@, trail as nat);
    }
    out
}

/// How the number written by `x` stands to the one written by `y`.
fn magnitude_rank(x: &Vec<u8>, y: &Vec<u8>) -> (r: Rank)
    requires
        x.len() == y.len(),
        is_digits(x@),
        is_digits(y@),
    ensures
        r == rank_of(digits_value(x@) as int, digits_value(y@) as int),
{
    let mut rank: Rank = Rank::Level;
    let mut i: usize = 0;
    while i < x.len()
        invariant
            i <= x.len(),
            x.len() == y.len(),
            is_digits(x@),
            is_digits(y@),
            rank == rank_of(
                digits_value(x@.take(i as int)) as int,
                digits_value(y@.take(i as int)) as int,
            ),
        decreases x.len() - i,
    {
        proof {
            lemma_take_step(x@, i as int);
            lemma_take_step(y@, i as int);
        }
        if matches!(rank, Rank::Level) {
            if x[i] < y[i] {
                rank = Rank::Below;
            } else if x[i] > y[i] {
                rank = Rank::Above;
            }
        }
        i += 1;
    }
    assert(x@.take(x.len() as int) =~= x@);
    assert(y@.take(y.len() as int) =~= y@);
    rank
}

/// One more digit multiplies the value by ten and adds the digit.
pub proof fn lemma_take_step(s: Seq<u8>, i: int)
    requires
        0 <= i < s.len(),
    ensures
        digits_value(s.take(i + 1)) == digits_value(s.take(i)) * 10 + s[i] as nat,
{
    assert(s.take(i + 1).drop_last() =~= s.take(i));
    assert(s.take(i + 1).last() == s[i]);
}

/// Zeros in front change nothing.
pub proof fn lemma_leading_zeros(k: nat, s: Seq<u8>)
    ensures
        digits_value(zeros(k) + s) == digits_value(s),
    decreases s.len(), k,
{
    if s.len() == 0 {
        assert(zeros(k) + s =~= zeros(k));
        if k > 0 {
            assert(zeros(k).drop_last() =~= zeros((k - 1) as nat));
            assert(zeros((k - 1) as nat) + s =~= zeros((k - 1) as nat));
            lemma_leading_zeros((k - 1) as nat, s);
        }
    } else {
        assert((zeros(k) + s).drop_last() =~= zeros(k) + s.drop_last());
        assert((zeros(k) + s).last() == s.last());
        lemma_leading_zeros(k, s.drop_last());
    }
}

/// Each zero behind multiplies by ten.
pub proof fn lemma_trailing_zeros(s: Seq<u8>, k: nat)
    ensures
        digits_value(s + zeros(k)) == digits_value(s) * pow(10, k),
    decreases k,
{
    if k == 0 {
        assert(s + zeros(0) =~= s);
        lemma_pow0(10);
    } else {
        assert((s + zeros(k)).drop_last() =~= s + zeros((k - 1) as nat));
        assert((s + zeros(k)).last() == 0u8);
        lemma_trailing_zeros(s, (k - 1) as nat);
        lemma_pow_adds(10, (k - 1) as nat, 1);
        vstd::arithmetic::power::lemma_pow1(10);
        assert(digits_value(s) * pow(10, (k - 1) as nat) * 10 == digits_value(s) * (pow(
            10,
            (k - 1) as nat,
        ) * 10)) by (nonlinear_arith);
    }
}

/// Any scale that both numbers can be written with decides their order.
pub proof fn lemma_order_at(a: DecimalView, b: DecimalView, scale: int)
    requires
        scale >= a.scale,
        scale >= b.scale,
    ensures
        decimal_le(a, b) == (aligned(a, scale) <= aligned(b, scale)),
{
    let c = common_scale(a, b);
    let p = pow(10, (scale - c) as nat);
    lemma_pow_positive(10, (scale - c) as nat);
    lemma_pow_adds(10, (c - a.scale) as nat, (scale - c) as nat);
    lemma_pow_adds(10, (c - b.scale) as nat, (scale - c) as nat);
    let x = aligned(a, c);
    let y = aligned(b, c);
    assert(aligned(a, scale) == x * p) by (nonlinear_arith)
        requires
            aligned(a, scale) == a.unscaled * (pow(10, (c - a.scale) as nat) * p),
            x == a.unscaled * pow(10, (c - a.scale) as nat),
    ;
    assert(aligned(b, scale) == y * p) by (nonlinear_arith)
        requires
            aligned(b, scale) == b.unscaled * (pow(10, (c - b.scale) as nat) * p),
            y == b.unscaled * pow(10, (c - b.scale) as nat),
    ;
    assert((x <= y) == (x * p <= y * p)) by (nonlinear_arith)
        requires
            p > 0,
    ;
}

/// The number that the store receives is the number that was given: each is
/// at most the other.
pub proof fn lemma_sent_is_the_same_number(v: DecimalView)
    ensures
        decimal_le(as_sent(v), v),
        decimal_le(v, as_sent(v)),
        as_sent(v).scale >= 0,
{
    if v.scale < 0 {
        let p = pow(10, (-v.scale) as nat);
        lemma_pow0(10);
        assert(aligned(v, 0) == v.unscaled * p);
        assert(aligned(as_sent(v), 0) == (v.unscaled * p) * 1);
    }
}

/// Every decimal is at most itself.
pub proof fn lemma_order_reflexive(a: DecimalView)
    ensures
        decimal_le(a, a),
{
}

/// Of two decimals one is at most the other.
pub proof fn lemma_order_total(a: DecimalView, b: DecimalView)
    ensures
        decimal_le(a, b) || decimal_le(b, a),
{
}

/// The order passes along: from `a <= b` and `b <= c` follows `a <= c`.
pub proof fn lemma_order_transitive(a: DecimalView, b: DecimalView, c: DecimalView)
    requires
        decimal_le(a, b),
        decimal_le(b, c),
    ensures
        decimal_le(a, c),
{
    let ab = common_scale(a, b);
    let top = if ab >= c.scale {
        ab
    } else {
        c.scale
    };
    lemma_order_at(a, b, top);
    lemma_order_at(b, c, top);
    lemma_order_at(a, c, top);
}

proof fn lemma_sign_scales(m: int, p: int)
    ensures
        (-m) * p == -(m * p),
{
    assert((-m) * p == -(m * p)) by (nonlinear_arith);
}

proof fn lemma_zero_product(m: int, p: int)
    requires
        m >= 0,
        p > 0,
    ensures
        m * p >= 0,
        (m * p == 0) == (m == 0),
{
    assert(m * p >= 0 && ((m * p == 0) == (m == 0))) by (nonlinear_arith)
        requires
            m >= 0,
            p > 0,
    ;
}

} // verus!
