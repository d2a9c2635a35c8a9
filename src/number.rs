use vstd::arithmetic::div_mod::{lemma_mod_add_multiples_vanish, lemma_small_mod};
use vstd::prelude::*;

verus! {

/// The scalar types eligible for modular exponentiation.
///
/// A type qualifies when it has a multiplicative identity and a combined
/// "multiply, then reduce" step. Multiplication wraps around on overflow, as
/// the fixed-width representation does natively; the reduction is the
/// truncating remainder of the type (for signed types, the one overflowing
/// case `MIN % -1` gives `0`, as `wrapping_rem` does).
pub trait Number: Copy + Send + Sync + Sized {
    /// The multiplicative identity.
    spec fn spec_one() -> Self;

    /// Whether `self` is the zero value (not usable as a modulus).
    spec fn spec_is_zero(self) -> bool;

    /// `self mod q`, with the type's own remainder.
    spec fn spec_rem(self, q: Self) -> Self;

    /// `(self * e) mod q`, with wrapping multiplication.
    spec fn spec_mul_rem(self, e: Self, q: Self) -> Self;

    fn one() -> (r: Self)
        ensures
            r == Self::spec_one(),
    ;

    fn is_zero(&self) -> (r: bool)
        ensures
            r == self.spec_is_zero(),
    ;

    fn mul_rem(self, e: Self, q: Self) -> (r: Self)
        requires
            !q.spec_is_zero(),
        ensures
            r == self.spec_mul_rem(e, q),
    ;

    /// Multiplying the identity by `e` and reducing gives `e mod q`.
    proof fn lemma_one_mul_rem(e: Self, q: Self)
        requires
            !q.spec_is_zero(),
        ensures
            Self::spec_one().spec_mul_rem(e, q) == e.spec_rem(q),
    ;
}

impl Number for u8 {
    open spec fn spec_one() -> u8 {
        1
    }

    open spec fn spec_is_zero(self) -> bool {
        self == 0
    }

    open spec fn spec_rem(self, q: u8) -> u8 {
        (self % q) as u8
    }

    open spec fn spec_mul_rem(self, e: u8, q: u8) -> u8 {
        (self.wrapping_mul(e) % q) as u8
    }

    fn one() -> (r: u8) {
        1
    }

    fn is_zero(&self) -> (r: bool) {
        *self == 0
    }

    fn mul_rem(self, e: u8, q: u8) -> (r: u8) {
        self.wrapping_mul(e) % q
    }

    proof fn lemma_one_mul_rem(e: u8, q: u8) {
        assert(1u8.wrapping_mul(e) == e);
    }
}

impl Number for u16 {
    open spec fn spec_one() -> u16 {
        1
    }

    open spec fn spec_is_zero(self) -> bool {
        self == 0
    }

    open spec fn spec_rem(self, q: u16) -> u16 {
        (self % q) as u16
    }

    open spec fn spec_mul_rem(self, e: u16, q: u16) -> u16 {
        (self.wrapping_mul(e) % q) as u16
    }

    fn one() -> (r: u16) {
        1
    }

    fn is_zero(&self) -> (r: bool) {
        *self == 0
    }

    fn mul_rem(self, e: u16, q: u16) -> (r: u16) {
        self.wrapping_mul(e) % q
    }

    proof fn lemma_one_mul_rem(e: u16, q: u16) {
        assert(1u16.wrapping_mul(e) == e);
    }
}

impl Number for u32 {
    open spec fn spec_one() -> u32 {
        1
    }

    open spec fn spec_is_zero(self) -> bool {
        self == 0
    }

    open spec fn spec_rem(self, q: u32) -> u32 {
        (self % q) as u32
    }

    open spec fn spec_mul_rem(self, e: u32, q: u32) -> u32 {
        (self.wrapping_mul(e) % q) as u32
    }

    fn one() -> (r: u32) {
        1
    }

    fn is_zero(&self) -> (r: bool) {
        *self == 0
    }

    fn mul_rem(self, e: u32, q: u32) -> (r: u32) {
        self.wrapping_mul(e) % q
    }

    proof fn lemma_one_mul_rem(e: u32, q: u32) {
        assert(1u32.wrapping_mul(e) == e);
    }
}

impl Number for u64 {
    open spec fn spec_one() -> u64 {
        1
    }

    open spec fn spec_is_zero(self) -> bool {
        self == 0
    }

    open spec fn spec_rem(self, q: u64) -> u64 {
        (self % q) as u64
    }

    open spec fn spec_mul_rem(self, e: u64, q: u64) -> u64 {
        (self.wrapping_mul(e) % q) as u64
    }

    fn one() -> (r: u64) {
        1
    }

    fn is_zero(&self) -> (r: bool) {
        *self == 0
    }

    fn mul_rem(self, e: u64, q: u64) -> (r: u64) {
        self.wrapping_mul(e) % q
    }

    proof fn lemma_one_mul_rem(e: u64, q: u64) {
        assert(1u64.wrapping_mul(e) == e);
    }
}

impl Number for u128 {
    open spec fn spec_one() -> u128 {
        1
    }

    open spec fn spec_is_zero(self) -> bool {
        self == 0
    }

    open spec fn spec_rem(self, q: u128) -> u128 {
        (self % q) as u128
    }

    open spec fn spec_mul_rem(self, e: u128, q: u128) -> u128 {
        (self.wrapping_mul(e) % q) as u128
    }

    fn one() -> (r: u128) {
        1
    }

    fn is_zero(&self) -> (r: bool) {
        *self == 0
    }

    fn mul_rem(self, e: u128, q: u128) -> (r: u128) {
        self.wrapping_mul(e) % q
    }

    proof fn lemma_one_mul_rem(e: u128, q: u128) {
        assert(1u128.wrapping_mul(e) == e);
    }
}

impl Number for usize {
    open spec fn spec_one() -> usize {
        1
    }

    open spec fn spec_is_zero(self) -> bool {
        self == 0
    }

    open spec fn spec_rem(self, q: usize) -> usize {
        (self % q) as usize
    }

    open spec fn spec_mul_rem(self, e: usize, q: usize) -> usize {
        (self.wrapping_mul(e) % q) as usize
    }

    fn one() -> (r: usize) {
        1
    }

    fn is_zero(&self) -> (r: bool) {
        *self == 0
    }

    fn mul_rem(self, e: usize, q: usize) -> (r: usize) {
        self.wrapping_mul(e) % q
    }

    proof fn lemma_one_mul_rem(e: usize, q: usize) {
        let r = (usize::MAX - usize::MIN + 1) as nat;
        assert(1nat * e as nat == e as nat);
        lemma_small_mod(e as nat, r);
        assert(1usize.wrapping_mul(e) == e);
    }
}

impl Number for i8 {
    open spec fn spec_one() -> i8 {
        1
    }

    open spec fn spec_is_zero(self) -> bool {
        self == 0
    }

    open spec fn spec_rem(self, q: i8) -> i8 {
        match self.checked_rem(q) {
            Some(r) => r,
            None => 0,
        }
    }

    open spec fn spec_mul_rem(self, e: i8, q: i8) -> i8 {
        self.wrapping_mul(e).spec_rem(q)
    }

    fn one() -> (r: i8) {
        1
    }

    fn is_zero(&self) -> (r: bool) {
        *self == 0
    }

    fn mul_rem(self, e: i8, q: i8) -> (r: i8) {
        match self.wrapping_mul(e).checked_rem(q) {
            Some(r) => r,
            None => 0,
        }
    }

    proof fn lemma_one_mul_rem(e: i8, q: i8) {
        assert(1i8.wrapping_mul(e) == e);
    }
}

impl Number for i16 {
    open spec fn spec_one() -> i16 {
        1
    }

    open spec fn spec_is_zero(self) -> bool {
        self == 0
    }

    open spec fn spec_rem(self, q: i16) -> i16 {
        match self.checked_rem(q) {
            Some(r) => r,
            None => 0,
        }
    }

    open spec fn spec_mul_rem(self, e: i16, q: i16) -> i16 {
        self.wrapping_mul(e).spec_rem(q)
    }

    fn one() -> (r: i16) {
        1
    }

    fn is_zero(&self) -> (r: bool) {
        *self == 0
    }

    fn mul_rem(self, e: i16, q: i16) -> (r: i16) {
        match self.wrapping_mul(e).checked_rem(q) {
            Some(r) => r,
            None => 0,
        }
    }

    proof fn lemma_one_mul_rem(e: i16, q: i16) {
        assert(1i16.wrapping_mul(e) == e);
    }
}

impl Number for i32 {
    open spec fn spec_one() -> i32 {
        1
    }

    open spec fn spec_is_zero(self) -> bool {
        self == 0
    }

    open spec fn spec_rem(self, q: i32) -> i32 {
        match self.checked_rem(q) {
            Some(r) => r,
            None => 0,
        }
    }

    open spec fn spec_mul_rem(self, e: i32, q: i32) -> i32 {
        self.wrapping_mul(e).spec_rem(q)
    }

    fn one() -> (r: i32) {
        1
    }

    fn is_zero(&self) -> (r: bool) {
        *self == 0
    }

    fn mul_rem(self, e: i32, q: i32) -> (r: i32) {
        match self.wrapping_mul(e).checked_rem(q) {
            Some(r) => r,
            None => 0,
        }
    }

    proof fn lemma_one_mul_rem(e: i32, q: i32) {
        assert(1i32.wrapping_mul(e) == e);
    }
}

impl Number for i64 {
    open spec fn spec_one() -> i64 {
        1
    }

    open spec fn spec_is_zero(self) -> bool {
        self == 0
    }

    open spec fn spec_rem(self, q: i64) -> i64 {
        match self.checked_rem(q) {
            Some(r) => r,
            None => 0,
        }
    }

    open spec fn spec_mul_rem(self, e: i64, q: i64) -> i64 {
        self.wrapping_mul(e).spec_rem(q)
    }

    fn one() -> (r: i64) {
        1
    }

    fn is_zero(&self) -> (r: bool) {
        *self == 0
    }

    fn mul_rem(self, e: i64, q: i64) -> (r: i64) {
        match self.wrapping_mul(e).checked_rem(q) {
            Some(r) => r,
            None => 0,
        }
    }

    proof fn lemma_one_mul_rem(e: i64, q: i64) {
        assert(1i64.wrapping_mul(e) == e);
    }
}

impl Number for i128 {
    open spec fn spec_one() -> i128 {
        1
    }

    open spec fn spec_is_zero(self) -> bool {
        self == 0
    }

    open spec fn spec_rem(self, q: i128) -> i128 {
        match self.checked_rem(q) {
            Some(r) => r,
            None => 0,
        }
    }

    open spec fn spec_mul_rem(self, e: i128, q: i128) -> i128 {
        self.wrapping_mul(e).spec_rem(q)
    }

    fn one() -> (r: i128) {
        1
    }

    fn is_zero(&self) -> (r: bool) {
        *self == 0
    }

    fn mul_rem(self, e: i128, q: i128) -> (r: i128) {
        match self.wrapping_mul(e).checked_rem(q) {
            Some(r) => r,
            None => 0,
        }
    }

    proof fn lemma_one_mul_rem(e: i128, q: i128) {
        assert(1i128.wrapping_mul(e) == e);
    }
}

impl Number for isize {
    open spec fn spec_one() -> isize {
        1
    }

    open spec fn spec_is_zero(self) -> bool {
        self == 0
    }

    open spec fn spec_rem(self, q: isize) -> isize {
        match self.checked_rem(q) {
            Some(r) => r,
            None => 0,
        }
    }

    open spec fn spec_mul_rem(self, e: isize, q: isize) -> isize {
        self.wrapping_mul(e).spec_rem(q)
    }

    fn one() -> (r: isize) {
        1
    }

    fn is_zero(&self) -> (r: bool) {
        *self == 0
    }

    fn mul_rem(self, e: isize, q: isize) -> (r: isize) {
        match self.wrapping_mul(e).checked_rem(q) {
            Some(r) => r,
            None => 0,
        }
    }

    proof fn lemma_one_mul_rem(e: isize, q: isize) {
        let r = (usize::MAX - usize::MIN + 1) as int;
        assert(r == 2 * (isize::MAX as int + 1));
        assert(isize::MIN as int == -(isize::MAX as int + 1));
        assert(1int * e as int == e as int);
        if e >= 0 {
            lemma_small_mod(e as nat, r as nat);
        } else {
            lemma_small_mod((r + e) as nat, r as nat);
            lemma_mod_add_multiples_vanish(e as int, r);
        }
        assert(1isize.wrapping_mul(e) == e);
    }
}

} // verus!
