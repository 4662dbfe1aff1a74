//! The fixed-width integers as rings modulo `2^bits`.
use vstd::prelude::*;
use vstd::arithmetic::div_mod::{lemma_small_mod, lemma_mod_add_multiples_vanish};
use crate::algebra::{One, Ring, Zero};

verus! {

impl Zero for i32 {
    open spec fn spec_zero() -> i32 {
        0
    }

    fn zero() -> (r: i32) {
        0
    }
}

impl One for i32 {
    open spec fn spec_one() -> i32 {
        1
    }

    fn one() -> (r: i32) {
        1
    }
}

impl Ring for i32 {
    open spec fn spec_add(a: i32, b: i32) -> i32 {
        vstd::wrapping::i32_specs::wrapping_add(a, b)
    }

    open spec fn spec_sub(a: i32, b: i32) -> i32 {
        vstd::wrapping::i32_specs::wrapping_sub(a, b)
    }

    open spec fn spec_mul(a: i32, b: i32) -> i32 {
        vstd::wrapping::i32_specs::wrapping_mul(a, b)
    }

    fn plus(&self, other: &i32) -> (r: i32) {
        self.wrapping_add(*other)
    }

    fn minus(&self, other: &i32) -> (r: i32) {
        self.wrapping_sub(*other)
    }

    fn times(&self, other: &i32) -> (r: i32) {
        self.wrapping_mul(*other)
    }

    fn is_zero(&self) -> (r: bool) {
        *self == 0
    }

    proof fn lemma_add_commutative(a: i32, b: i32) {
    }

    proof fn lemma_add_associative(a: i32, b: i32, c: i32) {
    }

    proof fn lemma_zero_neutral(a: i32) {
    }

    proof fn lemma_mul_zero(a: i32) {
        assert(a * 0 == 0);
        lemma_small_mod(0, 0x1_0000_0000);
    }

    proof fn lemma_mul_one(a: i32) {
        let r: int = 0x1_0000_0000;
        assert(a * 1 == a);
        if a >= 0 {
            lemma_small_mod(a as nat, r as nat);
        } else {
            lemma_mod_add_multiples_vanish(a as int, r);
            lemma_small_mod((a + r) as nat, r as nat);
        }
    }
}

impl Zero for i64 {
    open spec fn spec_zero() -> i64 {
        0
    }

    fn zero() -> (r: i64) {
        0
    }
}

impl One for i64 {
    open spec fn spec_one() -> i64 {
        1
    }

    fn one() -> (r: i64) {
        1
    }
}

impl Ring for i64 {
    open spec fn spec_add(a: i64, b: i64) -> i64 {
        vstd::wrapping::i64_specs::wrapping_add(a, b)
    }

    open spec fn spec_sub(a: i64, b: i64) -> i64 {
        vstd::wrapping::i64_specs::wrapping_sub(a, b)
    }

    open spec fn spec_mul(a: i64, b: i64) -> i64 {
        vstd::wrapping::i64_specs::wrapping_mul(a, b)
    }

    fn plus(&self, other: &i64) -> (r: i64) {
        self.wrapping_add(*other)
    }

    fn minus(&self, other: &i64) -> (r: i64) {
        self.wrapping_sub(*other)
    }

    fn times(&self, other: &i64) -> (r: i64) {
        self.wrapping_mul(*other)
    }

    fn is_zero(&self) -> (r: bool) {
        *self == 0
    }

    proof fn lemma_add_commutative(a: i64, b: i64) {
    }

    proof fn lemma_add_associative(a: i64, b: i64, c: i64) {
    }

    proof fn lemma_zero_neutral(a: i64) {
    }

    proof fn lemma_mul_zero(a: i64) {
        assert(a * 0 == 0);
        lemma_small_mod(0, 0x1_0000_0000_0000_0000);
    }

    proof fn lemma_mul_one(a: i64) {
        let r: int = 0x1_0000_0000_0000_0000;
        assert(a * 1 == a);
        if a >= 0 {
            lemma_small_mod(a as nat, r as nat);
        } else {
            lemma_mod_add_multiples_vanish(a as int, r);
            lemma_small_mod((a + r) as nat, r as nat);
        }
    }
}

impl Zero for u32 {
    open spec fn spec_zero() -> u32 {
        0
    }

    fn zero() -> (r: u32) {
        0
    }
}

impl One for u32 {
    open spec fn spec_one() -> u32 {
        1
    }

    fn one() -> (r: u32) {
        1
    }
}

impl Ring for u32 {
    open spec fn spec_add(a: u32, b: u32) -> u32 {
        vstd::wrapping::u32_specs::wrapping_add(a, b)
    }

    open spec fn spec_sub(a: u32, b: u32) -> u32 {
        vstd::wrapping::u32_specs::wrapping_sub(a, b)
    }

    open spec fn spec_mul(a: u32, b: u32) -> u32 {
        vstd::wrapping::u32_specs::wrapping_mul(a, b)
    }

    fn plus(&self, other: &u32) -> (r: u32) {
        self.wrapping_add(*other)
    }

    fn minus(&self, other: &u32) -> (r: u32) {
        self.wrapping_sub(*other)
    }

    fn times(&self, other: &u32) -> (r: u32) {
        self.wrapping_mul(*other)
    }

    fn is_zero(&self) -> (r: bool) {
        *self == 0
    }

    proof fn lemma_add_commutative(a: u32, b: u32) {
    }

    proof fn lemma_add_associative(a: u32, b: u32, c: u32) {
    }

    proof fn lemma_zero_neutral(a: u32) {
    }

    proof fn lemma_mul_zero(a: u32) {
        assert(a * 0 == 0);
        lemma_small_mod(0, 0x1_0000_0000);
    }

    proof fn lemma_mul_one(a: u32) {
        assert(a * 1 == a);
        lemma_small_mod(a as nat, 0x1_0000_0000);
    }
}

impl Zero for u64 {
    open spec fn spec_zero() -> u64 {
        0
    }

    fn zero() -> (r: u64) {
        0
    }
}

impl One for u64 {
    open spec fn spec_one() -> u64 {
        1
    }

    fn one() -> (r: u64) {
        1
    }
}

impl Ring for u64 {
    open spec fn spec_add(a: u64, b: u64) -> u64 {
        vstd::wrapping::u64_specs::wrapping_add(a, b)
    }

    open spec fn spec_sub(a: u64, b: u64) -> u64 {
        vstd::wrapping::u64_specs::wrapping_sub(a, b)
    }

    open spec fn spec_mul(a: u64, b: u64) -> u64 {
        vstd::wrapping::u64_specs::wrapping_mul(a, b)
    }

    fn plus(&self, other: &u64) -> (r: u64) {
        self.wrapping_add(*other)
    }

    fn minus(&self, other: &u64) -> (r: u64) {
        self.wrapping_sub(*other)
    }

    fn times(&self, other: &u64) -> (r: u64) {
        self.wrapping_mul(*other)
    }

    fn is_zero(&self) -> (r: bool) {
        *self == 0
    }

    proof fn lemma_add_commutative(a: u64, b: u64) {
    }

    proof fn lemma_add_associative(a: u64, b: u64, c: u64) {
    }

    proof fn lemma_zero_neutral(a: u64) {
    }

    proof fn lemma_mul_zero(a: u64) {
        assert(a * 0 == 0);
        lemma_small_mod(0, 0x1_0000_0000_0000_0000);
    }

    proof fn lemma_mul_one(a: u64) {
        assert(a * 1 == a);
        lemma_small_mod(a as nat, 0x1_0000_0000_0000_0000);
    }
}

impl Zero for usize {
    open spec fn spec_zero() -> usize {
        0
    }

    fn zero() -> (r: usize) {
        0
    }
}

impl One for usize {
    open spec fn spec_one() -> usize {
        1
    }

    fn one() -> (r: usize) {
        1
    }
}

impl Ring for usize {
    open spec fn spec_add(a: usize, b: usize) -> usize {
        vstd::wrapping::usize_specs::wrapping_add(a, b)
    }

    open spec fn spec_sub(a: usize, b: usize) -> usize {
        vstd::wrapping::usize_specs::wrapping_sub(a, b)
    }

    open spec fn spec_mul(a: usize, b: usize) -> usize {
        vstd::wrapping::usize_specs::wrapping_mul(a, b)
    }

    fn plus(&self, other: &usize) -> (r: usize) {
        self.wrapping_add(*other)
    }

    fn minus(&self, other: &usize) -> (r: usize) {
        self.wrapping_sub(*other)
    }

    fn times(&self, other: &usize) -> (r: usize) {
        self.wrapping_mul(*other)
    }

    fn is_zero(&self) -> (r: bool) {
        *self == 0
    }

    proof fn lemma_add_commutative(a: usize, b: usize) {
    }

    proof fn lemma_add_associative(a: usize, b: usize, c: usize) {
    }

    proof fn lemma_zero_neutral(a: usize) {
    }

    proof fn lemma_mul_zero(a: usize) {
        assert(a * 0 == 0);
        lemma_small_mod(0, (usize::MAX + 1) as nat);
    }

    proof fn lemma_mul_one(a: usize) {
        assert(a * 1 == a);
        lemma_small_mod(a as nat, (usize::MAX + 1) as nat);
    }
}

} // verus!
