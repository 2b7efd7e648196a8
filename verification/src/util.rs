//! Small arithmetic helpers shared by the assembler layers: alignment,
//! immediate-width tests, and little-endian byte encodings.

use vstd::prelude::*;

verus! {

/// What `align` computes: the least multiple of `a` that is at least `v`
/// (for positive `v` and `a`); `v` itself when `a` is zero.
pub open spec fn spec_align(v: int, a: int) -> int {
    if a == 0 {
        v
    } else {
        ((v + a - 1) / a) * a
    }
}

/// Rounds `value` up to the next multiple of `align`; returns `value`
/// unchanged when `align` is zero.
pub fn align(value: i32, alignment: i32) -> (r: i32)
    requires
        0 <= value,
        0 <= alignment,
        value + alignment <= i32::MAX,
    ensures
        r == spec_align(value as int, alignment as int),
        value <= r,
        alignment > 0 ==> r < value + alignment && r % alignment == 0,
{
    if alignment == 0 {
        return value;
    }
    proof {
        let v = value as int;
        let a = alignment as int;
        vstd::arithmetic::div_mod::lemma_div_pos_is_pos(v + a - 1, a);
        vstd::arithmetic::div_mod::lemma_fundamental_div_mod(v + a - 1, a);
        vstd::arithmetic::div_mod::lemma_mod_bound(v + a - 1, a);
        assert(((v + a - 1) / a) * a == (v + a - 1) - (v + a - 1) % a);
        vstd::arithmetic::div_mod::lemma_mod_multiples_basic((v + a - 1) / a, a);
    }
    ((value + alignment - 1) / alignment) * alignment
}

/// True exactly when `imm` is representable as a signed 8-bit displacement.
pub fn fits_i8(imm: i32) -> (r: bool)
    ensures
        r == (i8::MIN <= imm <= i8::MAX),
{
    -128 <= imm && imm <= 127
}

/// True exactly when `n` is representable as a signed 32-bit immediate.
pub fn fits_i32(n: i64) -> (r: bool)
    ensures
        r == (i32::MIN <= n <= i32::MAX),
{
    -0x8000_0000i64 <= n && n <= 0x7fff_ffffi64
}

/// Copies a vector of `Copy` elements element by element.
pub fn copy_vec<T: Copy>(v: &Vec<T>) -> (r: Vec<T>)
    ensures
        r@ == v@,
{
    let mut new: Vec<T> = Vec::new();
    let mut i: usize = 0;
    while i < v.len()
        invariant
            i <= v@.len(),
            new@ == v@.subrange(0, i as int),
        decreases v@.len() - i,
    {
        new.push(v[i]);
        i = i + 1;
    }
    proof {
        assert(new@ == v@.subrange(0, v@.len() as int));
        assert(v@.subrange(0, v@.len() as int) =~= v@);
    }
    new
}

/// Returns `Some(k)` when `x == 2^k` for some `k < 255`, `None` otherwise.
pub fn is_power_of_two(x: usize) -> (r: Option<u8>)
    ensures
        match r {
            Some(k) => x == vstd::arithmetic::power2::pow2(k as nat),
            None => forall|k: nat| k < 255 ==> x != vstd::arithmetic::power2::pow2(k),
        },
{
    let mut power_of_two: usize = 1;
    let mut i: u8 = 0;
    proof {
        vstd::arithmetic::power2::lemma2_to64();
    }
    while power_of_two < x && i < 255
        invariant
            power_of_two == vstd::arithmetic::power2::pow2(i as nat),
            forall|k: nat| k < i ==> x != vstd::arithmetic::power2::pow2(k),
        decreases 255 - i,
    {
        proof {
            vstd::arithmetic::power2::lemma_pow2_strictly_increases(i as nat, i as nat + 1);
            vstd::arithmetic::power2::lemma_pow2_unfold(i as nat + 1);
            // One doubling step stays within usize: pow2(i) < x <= usize::MAX.
            assert(vstd::arithmetic::power2::pow2(i as nat + 1) == 2 * power_of_two);
        }
        if power_of_two > usize::MAX / 2 {
            // 2^(i+1) would exceed usize::MAX, so it cannot equal x; and no
            // larger power can either, so the scan is over.
            proof {
                assert forall|k: nat| k < 255 implies x != vstd::arithmetic::power2::pow2(k) by {
                    if i as nat <= k {
                        if k > i as nat {
                            vstd::arithmetic::power2::lemma_pow2_strictly_increases(
                                i as nat + 1,
                                k + 1,
                            );
                            if k > i as nat + 1 {
                                vstd::arithmetic::power2::lemma_pow2_strictly_increases(
                                    i as nat + 1,
                                    k,
                                );
                            }
                            assert(vstd::arithmetic::power2::pow2(k)
                                >= vstd::arithmetic::power2::pow2(i as nat + 1));
                            assert(vstd::arithmetic::power2::pow2(k) > usize::MAX);
                        }
                    }
                }
            }
            return None;
        }
        power_of_two = power_of_two * 2;
        i = i + 1;
    }
    if power_of_two == x {
        Some(i)
    } else {
        // The loop stopped with power_of_two >= x yet unequal, or with
        // every 8-bit exponent ruled out already.
        proof {
            assert forall|k: nat| k < 255 implies x != vstd::arithmetic::power2::pow2(k) by {
                if i as nat <= k {
                    assert(i < 255);
                    assert(power_of_two >= x);
                    if k > i as nat {
                        vstd::arithmetic::power2::lemma_pow2_strictly_increases(i as nat, k);
                    }
                    assert(vstd::arithmetic::power2::pow2(k) >= power_of_two);
                    assert(vstd::arithmetic::power2::pow2(k) > x || power_of_two == x);
                }
            }
        }
        None
    }
}

/// Rounds `x` up to the nearest multiple of `align`, which must be a
/// power of two.
pub fn align_up(x: usize, alignment: usize) -> (r: usize)
    requires
        alignment > 0,
        x + alignment <= usize::MAX,
        exists|k: nat| alignment == vstd::arithmetic::power2::pow2(k),
    ensures
        r == spec_align(x as int, alignment as int),
{
    // With a power-of-two alignment the bit trick of the usual
    // implementation agrees with the division form; the division form is
    // the directly stated one, so it is the one used.
    proof {
        vstd::arithmetic::div_mod::lemma_div_pos_is_pos(
            x as int + alignment - 1,
            alignment as int,
        );
        vstd::arithmetic::div_mod::lemma_fundamental_div_mod(
            x as int + alignment - 1,
            alignment as int,
        );
        vstd::arithmetic::div_mod::lemma_mod_bound(x as int + alignment - 1, alignment as int);
        let s = x as int + alignment - 1;
        let a = alignment as int;
        assert((s / a) * a == s - s % a);
        assert((s / a) * a <= s);
    }
    ((x + alignment - 1) / alignment) * alignment
}

/// Concatenation of two sequences after a common prefix may be grouped
/// either way.
pub proof fn lemma_concat2<T>(s: Seq<T>, a: Seq<T>, b: Seq<T>)
    ensures
        s + a + b == s + (a + b),
{
    assert(s + a + b =~= s + (a + b));
}

/// Concatenation of four sequences after a common prefix may be grouped
/// either way.
pub proof fn lemma_concat4<T>(s: Seq<T>, a: Seq<T>, b: Seq<T>, c: Seq<T>, d: Seq<T>)
    ensures
        s + a + b + c + d == s + (a + b + c + d),
{
    assert(s + a + b + c + d =~= s + (a + b + c + d));
}

/// Concatenation of three sequences after a common prefix may be grouped
/// either way.
pub proof fn lemma_concat3<T>(s: Seq<T>, a: Seq<T>, b: Seq<T>, c: Seq<T>)
    ensures
        s + a + b + c == s + (a + b + c),
{
    assert(s + a + b + c =~= s + (a + b + c));
}

/// Concatenation of five sequences after a common prefix may be grouped
/// either way.
pub proof fn lemma_concat5<T>(s: Seq<T>, a: Seq<T>, b: Seq<T>, c: Seq<T>, d: Seq<T>, e: Seq<T>)
    ensures
        s + a + b + c + d + e == s + (a + b + c + d + e),
{
    assert(s + a + b + c + d + e =~= s + (a + b + c + d + e));
}

/// The little-endian bytes of a 32-bit value, least significant first.
pub open spec fn le32_of(x: u32) -> Seq<u8> {
    seq![
        (x % 0x100) as u8,
        ((x / 0x100) % 0x100) as u8,
        ((x / 0x1_0000) % 0x100) as u8,
        ((x / 0x100_0000) % 0x100) as u8,
    ]
}

/// The little-endian bytes of a 64-bit value, least significant first.
pub open spec fn le64_of(x: u64) -> Seq<u8> {
    seq![
        (x % 0x100) as u8,
        ((x / 0x100) % 0x100) as u8,
        ((x / 0x1_0000) % 0x100) as u8,
        ((x / 0x100_0000) % 0x100) as u8,
        ((x / 0x1_0000_0000) % 0x100) as u8,
        ((x / 0x100_0000_0000) % 0x100) as u8,
        ((x / 0x1_0000_0000_0000) % 0x100) as u8,
        ((x / 0x100_0000_0000_0000) % 0x100) as u8,
    ]
}

/// The two's-complement 32-bit image of an integer in `[-2^31, 2^31)`.
pub open spec fn u32_of_i32(d: int) -> u32
    recommends
        -0x8000_0000 <= d < 0x8000_0000,
{
    if d >= 0 {
        d as u32
    } else {
        (d + 0x1_0000_0000) as u32
    }
}

/// The two's-complement 64-bit image of an integer in `[-2^63, 2^63)`.
pub open spec fn u64_of_i64(d: int) -> u64
    recommends
        -0x8000_0000_0000_0000 <= d < 0x8000_0000_0000_0000,
{
    if d >= 0 {
        d as u64
    } else {
        (d + 0x1_0000_0000_0000_0000) as u64
    }
}

/// The two's-complement 8-bit image of an integer in `[-128, 128)`.
pub open spec fn u8_of_i8(d: int) -> u8
    recommends
        -0x80 <= d < 0x80,
{
    if d >= 0 {
        d as u8
    } else {
        (d + 0x100) as u8
    }
}

/// Converts a signed displacement to its 32-bit two's-complement image.
pub fn to_u32_2c(d: i32) -> (r: u32)
    ensures
        r == u32_of_i32(d as int),
{
    if d >= 0 {
        d as u32
    } else {
        let wide: i64 = d as i64 + 0x1_0000_0000i64;
        wide as u32
    }
}

/// Converts a signed immediate to its 64-bit two's-complement image.
pub fn to_u64_2c(d: i64) -> (r: u64)
    ensures
        r == u64_of_i64(d as int),
{
    if d >= 0 {
        d as u64
    } else {
        let high: u64 = 0x8000_0000_0000_0000u64;
        let low: i64 = d + 0x4000_0000_0000_0000i64 + 0x4000_0000_0000_0000i64;
        // d + 2^64 == 2^63 + (d + 2^63); the right summand is non-negative.
        high + (low as u64)
    }
}

/// Converts a signed byte displacement to its 8-bit two's-complement image.
pub fn to_u8_2c(d: i32) -> (r: u8)
    requires
        -128 <= d <= 127,
    ensures
        r == u8_of_i8(d as int),
{
    if d >= 0 {
        d as u8
    } else {
        (d + 0x100) as u8
    }
}

} // verus!
