//! Numeric helper contracts: alignment rounding, clamping and range tests.
//!
//! These are self-contained arithmetic utilities.  Each trait states its
//! result exactly over the mathematical value of the fixed-width integer
//! it is implemented for.

use vstd::arithmetic::div_mod::{
    lemma_fundamental_div_mod, lemma_mod_add_multiples_vanish, lemma_mod_decreases,
    lemma_mod_division_less_than_divisor, lemma_mod_multiples_basic,
    lemma_mod_sub_multiples_vanish,
};
use vstd::math::abs;
use vstd::prelude::*;

verus! {

/// The remainder of the host language's `%` on fixed-width integers:
/// the result carries the sign of `v` and its magnitude stays below the
/// magnitude of `a`.
pub open spec fn trunc_rem(v: int, a: int) -> int {
    let m = if a >= 0 {
        a
    } else {
        -a
    };
    if v >= 0 {
        v % m
    } else {
        -((-v) % m)
    }
}

/// `v` moved toward zero to the nearest multiple of `a`.
pub open spec fn align_down_spec(v: int, a: int) -> int {
    v - trunc_rem(v, a)
}

/// `v` when it already sits on a multiple of `a`; otherwise `v` moved by
/// `a - trunc_rem(v, a)`, which for positive arguments is the next
/// multiple of `a` above `v`.
pub open spec fn align_up_spec(v: int, a: int) -> int {
    if trunc_rem(v, a) == 0 {
        v
    } else {
        v + a - trunc_rem(v, a)
    }
}

/// `v` limited to `[lo, hi]`, the lower bound winning when the two
/// bounds cross.
pub open spec fn clamp_spec(v: int, lo: int, hi: int) -> int {
    if v < lo {
        lo
    } else if v > hi {
        hi
    } else {
        v
    }
}

/// Bounds of the truncated remainder: it never crosses zero away from
/// `v`, never grows past `v`, and stays below the magnitude of `a`.
pub proof fn lemma_trunc_rem_bounds(v: int, a: int)
    requires
        a != 0,
    ensures
        v >= 0 ==> 0 <= trunc_rem(v, a) <= v,
        v < 0 ==> v <= trunc_rem(v, a) <= 0,
        -abs(a) < trunc_rem(v, a) < abs(a),
{
    let m = if a >= 0 {
        a
    } else {
        -a
    };
    if v >= 0 {
        lemma_mod_division_less_than_divisor(v, m);
        lemma_mod_decreases(v as nat, m as nat);
    } else {
        lemma_mod_division_less_than_divisor(-v, m);
        lemma_mod_decreases((-v) as nat, m as nat);
    }
}

/// Rounding toward zero lands on a multiple of `a`, stays between zero
/// and `v`, and moves by less than the magnitude of `a`.
pub proof fn lemma_align_down_props(v: int, a: int)
    requires
        a != 0,
    ensures
        trunc_rem(align_down_spec(v, a), a) == 0,
        v >= 0 ==> 0 <= align_down_spec(v, a) <= v,
        v < 0 ==> v <= align_down_spec(v, a) <= 0,
        abs(v - align_down_spec(v, a)) < abs(a),
{
    let m = if a >= 0 {
        a
    } else {
        -a
    };
    let r = align_down_spec(v, a);
    lemma_trunc_rem_bounds(v, a);
    if v >= 0 {
        lemma_fundamental_div_mod(v, m);
        assert(r == (v / m) * m);
        lemma_mod_multiples_basic(v / m, m);
    } else {
        lemma_fundamental_div_mod(-v, m);
        assert(-r == ((-v) / m) * m);
        lemma_mod_multiples_basic((-v) / m, m);
    }
}

/// Negating a multiple of `m` yields a multiple of `m`.
proof fn lemma_mod_zero_negate(x: int, m: int)
    requires
        0 < m,
        x % m == 0,
    ensures
        (-x) % m == 0,
{
    lemma_fundamental_div_mod(x, m);
    let q = x / m;
    assert(-x == (-q) * m) by (nonlinear_arith)
        requires
            x == m * q,
    ;
    lemma_mod_multiples_basic(-q, m);
}

/// The truncated remainder vanishes exactly where the Euclidean
/// remainder by the magnitude of `a` does.
pub proof fn lemma_trunc_rem_zero_iff(r: int, a: int)
    requires
        a != 0,
    ensures
        trunc_rem(r, a) == 0 <==> r % (abs(a) as int) == 0,
{
    let m = if a >= 0 {
        a
    } else {
        -a
    };
    if r < 0 {
        if (-r) % m == 0 {
            lemma_mod_zero_negate(-r, m);
        }
        if r % m == 0 {
            lemma_mod_zero_negate(r, m);
        }
    }
}

/// Rounding away from zero by the complement of the remainder lands on
/// a multiple of `a`; the result stays within the bounds needed to rule
/// out overflow, stated per sign of `v` and `a`.
pub proof fn lemma_align_up_props(v: int, a: int)
    requires
        a != 0,
    ensures
        trunc_rem(align_up_spec(v, a), a) == 0,
        trunc_rem(v, a) == 0 ==> align_up_spec(v, a) == v,
        trunc_rem(v, a) != 0 && a > 0 && v >= 0 ==> v < align_up_spec(v, a) < v + a,
        trunc_rem(v, a) != 0 && a > 0 && v < 0 ==> v + a < align_up_spec(v, a) <= a,
        trunc_rem(v, a) != 0 && a < 0 && v > 0 ==> a <= align_up_spec(v, a) < v + a,
        trunc_rem(v, a) != 0 && a < 0 && v < 0 ==> v + a < align_up_spec(v, a) <= a,
{
    let m = if a >= 0 {
        a
    } else {
        -a
    };
    let rem = trunc_rem(v, a);
    let r = align_up_spec(v, a);
    lemma_trunc_rem_bounds(v, a);
    if rem == 0 {
    } else {
        let d = align_down_spec(v, a);
        lemma_align_down_props(v, a);
        lemma_trunc_rem_zero_iff(d, a);
        assert(r == d + a);
        if a > 0 {
            lemma_mod_add_multiples_vanish(d, m);
        } else {
            lemma_mod_sub_multiples_vanish(d, m);
        }
        lemma_trunc_rem_zero_iff(r, a);
    }
}

/// A view of a fixed-width integer type as a span of mathematical
/// integers, shared by the numeric helper traits below.
pub trait IntValue: Sized {
    /// The mathematical value.
    spec fn as_int(self) -> int;

    /// Whether `v` is representable in this type.
    spec fn fits(v: int) -> bool;
}

/// Moving a value toward zero onto a multiple of `align`.
pub trait AlignDownwards: IntValue {
    /// Returns the nearest multiple of `align` between zero and `self`.
    fn align_downwards(self, align: Self) -> (r: Self)
        requires
            align.as_int() != 0,
            align.as_int() == -1 ==> Self::fits(-self.as_int()),
        ensures
            r.as_int() == align_down_spec(self.as_int(), align.as_int()),
    ;
}

/// Moving a value off a multiple of `align` by the complement of its
/// remainder; for nonnegative values and positive `align`, up to the
/// next multiple.
pub trait AlignUpwards: IntValue {
    /// Returns `self` when it sits on a multiple of `align`, and
    /// otherwise `self + align - trunc_rem(self, align)`.
    fn align_upwards(self, align: Self) -> (r: Self)
        requires
            align.as_int() != 0,
            align.as_int() == -1 ==> Self::fits(-self.as_int()),
            trunc_rem(self.as_int(), align.as_int()) != 0 ==> Self::fits(
                self.as_int() + align.as_int(),
            ),
        ensures
            r.as_int() == align_up_spec(self.as_int(), align.as_int()),
    ;
}

/// Limiting a value to a closed range.
pub trait Clamped: IntValue {
    /// Returns `self` limited to `[min, max]`; the lower bound is
    /// applied first, so it wins when the bounds cross.
    fn clamped(self, min: Self, max: Self) -> (r: Self)
        ensures
            r.as_int() == clamp_spec(self.as_int(), min.as_int(), max.as_int()),
    ;
}

/// Testing whether a value lies in a closed range.
pub trait IsInRange: IntValue {
    /// Returns `true` exactly when `min <= self <= max`.
    fn is_in_range(self, min: Self, max: Self) -> (r: bool)
        ensures
            r == (min.as_int() <= self.as_int() && self.as_int() <= max.as_int()),
    ;
}

impl IntValue for i8 {
    open spec fn as_int(self) -> int {
        self as int
    }

    open spec fn fits(v: int) -> bool {
        i8::MIN <= v <= i8::MAX
    }
}

impl AlignDownwards for i8 {
    fn align_downwards(self, align: Self) -> (r: Self) {
        proof {
            lemma_align_down_props(self as int, align as int);
        }
        let rem = self.checked_rem(align).unwrap();
        self - rem
    }
}

impl AlignUpwards for i8 {
    fn align_upwards(self, align: Self) -> (r: Self) {
        proof {
            lemma_align_up_props(self as int, align as int);
        }
        let rem = self.checked_rem(align).unwrap();
        proof {
            assert(rem == trunc_rem(self as int, align as int));
        }
        if rem != 0 {
            self + align - rem
        } else {
            self
        }
    }
}

impl Clamped for i8 {
    fn clamped(self, min: Self, max: Self) -> (r: Self) {
        if self < min {
            min
        } else if self > max {
            max
        } else {
            self
        }
    }
}

impl IsInRange for i8 {
    fn is_in_range(self, min: Self, max: Self) -> (r: bool) {
        self >= min && self <= max
    }
}

impl IntValue for i16 {
    open spec fn as_int(self) -> int {
        self as int
    }

    open spec fn fits(v: int) -> bool {
        i16::MIN <= v <= i16::MAX
    }
}

impl AlignDownwards for i16 {
    fn align_downwards(self, align: Self) -> (r: Self) {
        proof {
            lemma_align_down_props(self as int, align as int);
        }
        let rem = self.checked_rem(align).unwrap();
        self - rem
    }
}

impl AlignUpwards for i16 {
    fn align_upwards(self, align: Self) -> (r: Self) {
        proof {
            lemma_align_up_props(self as int, align as int);
        }
        let rem = self.checked_rem(align).unwrap();
        proof {
            assert(rem == trunc_rem(self as int, align as int));
        }
        if rem != 0 {
            self + align - rem
        } else {
            self
        }
    }
}

impl Clamped for i16 {
    fn clamped(self, min: Self, max: Self) -> (r: Self) {
        if self < min {
            min
        } else if self > max {
            max
        } else {
            self
        }
    }
}

impl IsInRange for i16 {
    fn is_in_range(self, min: Self, max: Self) -> (r: bool) {
        self >= min && self <= max
    }
}

impl IntValue for i32 {
    open spec fn as_int(self) -> int {
        self as int
    }

    open spec fn fits(v: int) -> bool {
        i32::MIN <= v <= i32::MAX
    }
}

impl AlignDownwards for i32 {
    fn align_downwards(self, align: Self) -> (r: Self) {
        proof {
            lemma_align_down_props(self as int, align as int);
        }
        let rem = self.checked_rem(align).unwrap();
        self - rem
    }
}

impl AlignUpwards for i32 {
    fn align_upwards(self, align: Self) -> (r: Self) {
        proof {
            lemma_align_up_props(self as int, align as int);
        }
        let rem = self.checked_rem(align).unwrap();
        proof {
            assert(rem == trunc_rem(self as int, align as int));
        }
        if rem != 0 {
            self + align - rem
        } else {
            self
        }
    }
}

impl Clamped for i32 {
    fn clamped(self, min: Self, max: Self) -> (r: Self) {
        if self < min {
            min
        } else if self > max {
            max
        } else {
            self
        }
    }
}

impl IsInRange for i32 {
    fn is_in_range(self, min: Self, max: Self) -> (r: bool) {
        self >= min && self <= max
    }
}

impl IntValue for i64 {
    open spec fn as_int(self) -> int {
        self as int
    }

    open spec fn fits(v: int) -> bool {
        i64::MIN <= v <= i64::MAX
    }
}

impl AlignDownwards for i64 {
    fn align_downwards(self, align: Self) -> (r: Self) {
        proof {
            lemma_align_down_props(self as int, align as int);
        }
        let rem = self.checked_rem(align).unwrap();
        self - rem
    }
}

impl AlignUpwards for i64 {
    fn align_upwards(self, align: Self) -> (r: Self) {
        proof {
            lemma_align_up_props(self as int, align as int);
        }
        let rem = self.checked_rem(align).unwrap();
        proof {
            assert(rem == trunc_rem(self as int, align as int));
        }
        if rem != 0 {
            self + align - rem
        } else {
            self
        }
    }
}

impl Clamped for i64 {
    fn clamped(self, min: Self, max: Self) -> (r: Self) {
        if self < min {
            min
        } else if self > max {
            max
        } else {
            self
        }
    }
}

impl IsInRange for i64 {
    fn is_in_range(self, min: Self, max: Self) -> (r: bool) {
        self >= min && self <= max
    }
}

impl IntValue for isize {
    open spec fn as_int(self) -> int {
        self as int
    }

    open spec fn fits(v: int) -> bool {
        isize::MIN <= v <= isize::MAX
    }
}

impl AlignDownwards for isize {
    fn align_downwards(self, align: Self) -> (r: Self) {
        proof {
            lemma_align_down_props(self as int, align as int);
        }
        let rem = self.checked_rem(align).unwrap();
        self - rem
    }
}

impl AlignUpwards for isize {
    fn align_upwards(self, align: Self) -> (r: Self) {
        proof {
            lemma_align_up_props(self as int, align as int);
        }
        let rem = self.checked_rem(align).unwrap();
        proof {
            assert(rem == trunc_rem(self as int, align as int));
        }
        if rem != 0 {
            self + align - rem
        } else {
            self
        }
    }
}

impl Clamped for isize {
    fn clamped(self, min: Self, max: Self) -> (r: Self) {
        if self < min {
            min
        } else if self > max {
            max
        } else {
            self
        }
    }
}

impl IsInRange for isize {
    fn is_in_range(self, min: Self, max: Self) -> (r: bool) {
        self >= min && self <= max
    }
}

impl IntValue for u8 {
    open spec fn as_int(self) -> int {
        self as int
    }

    open spec fn fits(v: int) -> bool {
        0 <= v <= u8::MAX
    }
}

impl AlignDownwards for u8 {
    fn align_downwards(self, align: Self) -> (r: Self) {
        proof {
            lemma_align_down_props(self as int, align as int);
        }
        self - self % align
    }
}

impl AlignUpwards for u8 {
    fn align_upwards(self, align: Self) -> (r: Self) {
        proof {
            lemma_align_up_props(self as int, align as int);
        }
        let rem = self % align;
        if rem != 0 {
            self + align - rem
        } else {
            self
        }
    }
}

impl Clamped for u8 {
    fn clamped(self, min: Self, max: Self) -> (r: Self) {
        if self < min {
            min
        } else if self > max {
            max
        } else {
            self
        }
    }
}

impl IsInRange for u8 {
    fn is_in_range(self, min: Self, max: Self) -> (r: bool) {
        self >= min && self <= max
    }
}

impl IntValue for u16 {
    open spec fn as_int(self) -> int {
        self as int
    }

    open spec fn fits(v: int) -> bool {
        0 <= v <= u16::MAX
    }
}

impl AlignDownwards for u16 {
    fn align_downwards(self, align: Self) -> (r: Self) {
        proof {
            lemma_align_down_props(self as int, align as int);
        }
        self - self % align
    }
}

impl AlignUpwards for u16 {
    fn align_upwards(self, align: Self) -> (r: Self) {
        proof {
            lemma_align_up_props(self as int, align as int);
        }
        let rem = self % align;
        if rem != 0 {
            self + align - rem
        } else {
            self
        }
    }
}

impl Clamped for u16 {
    fn clamped(self, min: Self, max: Self) -> (r: Self) {
        if self < min {
            min
        } else if self > max {
            max
        } else {
            self
        }
    }
}

impl IsInRange for u16 {
    fn is_in_range(self, min: Self, max: Self) -> (r: bool) {
        self >= min && self <= max
    }
}

impl IntValue for u32 {
    open spec fn as_int(self) -> int {
        self as int
    }

    open spec fn fits(v: int) -> bool {
        0 <= v <= u32::MAX
    }
}

impl AlignDownwards for u32 {
    fn align_downwards(self, align: Self) -> (r: Self) {
        proof {
            lemma_align_down_props(self as int, align as int);
        }
        self - self % align
    }
}

impl AlignUpwards for u32 {
    fn align_upwards(self, align: Self) -> (r: Self) {
        proof {
            lemma_align_up_props(self as int, align as int);
        }
        let rem = self % align;
        if rem != 0 {
            self + align - rem
        } else {
            self
        }
    }
}

impl Clamped for u32 {
    fn clamped(self, min: Self, max: Self) -> (r: Self) {
        if self < min {
            min
        } else if self > max {
            max
        } else {
            self
        }
    }
}

impl IsInRange for u32 {
    fn is_in_range(self, min: Self, max: Self) -> (r: bool) {
        self >= min && self <= max
    }
}

impl IntValue for u64 {
    open spec fn as_int(self) -> int {
        self as int
    }

    open spec fn fits(v: int) -> bool {
        0 <= v <= u64::MAX
    }
}

impl AlignDownwards for u64 {
    fn align_downwards(self, align: Self) -> (r: Self) {
        proof {
            lemma_align_down_props(self as int, align as int);
        }
        self - self % align
    }
}

impl AlignUpwards for u64 {
    fn align_upwards(self, align: Self) -> (r: Self) {
        proof {
            lemma_align_up_props(self as int, align as int);
        }
        let rem = self % align;
        if rem != 0 {
            self + align - rem
        } else {
            self
        }
    }
}

impl Clamped for u64 {
    fn clamped(self, min: Self, max: Self) -> (r: Self) {
        if self < min {
            min
        } else if self > max {
            max
        } else {
            self
        }
    }
}

impl IsInRange for u64 {
    fn is_in_range(self, min: Self, max: Self) -> (r: bool) {
        self >= min && self <= max
    }
}

impl IntValue for usize {
    open spec fn as_int(self) -> int {
        self as int
    }

    open spec fn fits(v: int) -> bool {
        0 <= v <= usize::MAX
    }
}

impl AlignDownwards for usize {
    fn align_downwards(self, align: Self) -> (r: Self) {
        proof {
            lemma_align_down_props(self as int, align as int);
        }
        self - self % align
    }
}

impl AlignUpwards for usize {
    fn align_upwards(self, align: Self) -> (r: Self) {
        proof {
            lemma_align_up_props(self as int, align as int);
        }
        let rem = self % align;
        if rem != 0 {
            self + align - rem
        } else {
            self
        }
    }
}

impl Clamped for usize {
    fn clamped(self, min: Self, max: Self) -> (r: Self) {
        if self < min {
            min
        } else if self > max {
            max
        } else {
            self
        }
    }
}

impl IsInRange for usize {
    fn is_in_range(self, min: Self, max: Self) -> (r: bool) {
        self >= min && self <= max
    }
}

} // verus!
