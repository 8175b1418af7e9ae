//! Conversion of IEEE 754 bit patterns to integers, with the semantics of
//! Rust's `as` cast from a float to an integer: truncation toward zero,
//! saturation at the bounds of the target, and `NaN` to zero.
use vstd::prelude::*;

verus! {

/// Two to the power `k`.
pub open spec fn two_pow(k: nat) -> nat
    decreases k,
{
    if k == 0 {
        1
    } else {
        2 * two_pow((k - 1) as nat)
    }
}

/// `v` limited to `min..=max`.
pub open spec fn clamp(v: int, min: int, max: int) -> int {
    if v < min {
        min
    } else if v > max {
        max
    } else {
        v
    }
}

/// The integer that `as` gives for the float with sign bit `sign`, biased
/// exponent `exp` (all ones meaning infinity or NaN), fraction `frac`, in a
/// format with `frac_bits` fraction bits, exponent bias `bias` and largest
/// exponent `exp_max`.
pub open spec fn float_parts_to_int(
    sign: int,
    exp: int,
    frac: int,
    frac_bits: nat,
    bias: int,
    exp_max: int,
    min: int,
    max: int,
) -> int {
    if exp == exp_max {
        if frac != 0 {
            0
        } else if sign == 1 {
            min
        } else {
            max
        }
    } else {
        let m: int = if exp == 0 { frac } else { frac + two_pow(frac_bits) };
        let e: int = if exp == 0 { 1 - bias - frac_bits } else { exp - bias - frac_bits };
        let magnitude: int = scaled_magnitude(m, e);
        clamp(if sign == 1 { -magnitude } else { magnitude }, min, max)
    }
}

/// What `f32::from_bits(bits) as T` gives for an integer type `T` with range
/// `min..=max`.
pub open spec fn float32_to_int(bits: int, min: int, max: int) -> int {
    float_parts_to_int(
        bits / 0x8000_0000,
        (bits / 0x80_0000) % 256,
        bits % 0x80_0000,
        23,
        127,
        255,
        min,
        max,
    )
}

/// What `f64::from_bits(bits) as T` gives for an integer type `T` with range
/// `min..=max`.
pub open spec fn float64_to_int(bits: int, min: int, max: int) -> int {
    float_parts_to_int(
        bits / 0x8000_0000_0000_0000,
        (bits / 0x10_0000_0000_0000) % 2048,
        bits % 0x10_0000_0000_0000,
        52,
        1023,
        2047,
        min,
        max,
    )
}

proof fn lemma_two_pow_monotone(a: nat, b: nat)
    requires
        a <= b,
    ensures
        two_pow(a) <= two_pow(b),
        two_pow(a) >= 1,
    decreases b,
{
    if b > a {
        lemma_two_pow_monotone(a, (b - 1) as nat);
    } else if b > 0 {
        lemma_two_pow_monotone(0, (b - 1) as nat);
    }
}

proof fn lemma_two_pow_add(a: nat, b: nat)
    ensures
        two_pow(a + b) == two_pow(a) * two_pow(b),
    decreases b,
{
    if b > 0 {
        let c: nat = (b - 1) as nat;
        lemma_two_pow_add(a, c);
        assert(a + b == (a + c) + 1);
        assert(two_pow(a + b) == 2 * two_pow(a + c));
        assert(two_pow(b) == 2 * two_pow(c));
        let pa = two_pow(a);
        let pc = two_pow(c);
        assert(2 * (pa * pc) == pa * (2 * pc)) by (nonlinear_arith);
    } else {
        assert(a + b == a);
        assert(two_pow(b) == 1);
        assert(two_pow(a) * 1 == two_pow(a));
    }
}

proof fn lemma_two_pow_step(a: nat, b: nat, pa: int, pb: int)
    requires
        two_pow(a) == pa,
        two_pow(b) == pb,
    ensures
        two_pow(a + b) == pa * pb,
{
    lemma_two_pow_add(a, b);
}

proof fn lemma_two_pow_constants()
    ensures
        two_pow(23) == 0x80_0000,
        two_pow(52) == 0x10_0000_0000_0000,
        two_pow(63) == 0x8000_0000_0000_0000,
        two_pow(64) == 0x1_0000_0000_0000_0000,
        two_pow(126) == 0x4000_0000_0000_0000_0000_0000_0000_0000,
        two_pow(127) == 0x8000_0000_0000_0000_0000_0000_0000_0000,
{
    assert(two_pow(3) == 8) by {
        reveal_with_fuel(two_pow, 4);
    }
    assert(two_pow(4) == 16) by {
        reveal_with_fuel(two_pow, 5);
    }
    lemma_two_pow_step(4, 4, 16, 16);
    lemma_two_pow_step(4, 3, 16, 8);
    lemma_two_pow_step(8, 7, 0x100, 0x80);
    lemma_two_pow_step(8, 8, 0x100, 0x100);
    lemma_two_pow_step(16, 4, 0x1_0000, 16);
    lemma_two_pow_step(20, 3, 0x10_0000, 8);
    lemma_two_pow_step(16, 15, 0x1_0000, 0x8000);
    lemma_two_pow_step(16, 16, 0x1_0000, 0x1_0000);
    lemma_two_pow_step(32, 16, 0x1_0000_0000, 0x1_0000);
    lemma_two_pow_step(48, 4, 0x1_0000_0000_0000, 16);
    lemma_two_pow_step(32, 31, 0x1_0000_0000, 0x8000_0000);
    lemma_two_pow_step(32, 32, 0x1_0000_0000, 0x1_0000_0000);
    lemma_two_pow_step(64, 63, 0x1_0000_0000_0000_0000, 0x8000_0000_0000_0000);
    lemma_two_pow_step(63, 63, 0x8000_0000_0000_0000, 0x8000_0000_0000_0000);
}

/// Computes two to the power `k`.
fn two_pow_exec(k: u32) -> (r: u128)
    requires
        k <= 127,
    ensures
        r == two_pow(k as nat),
{
    let mut r: u128 = 1;
    let mut i: u32 = 0;
    while i < k
        invariant
            i <= k <= 127,
            r == two_pow(i as nat),
        decreases k - i,
    {
        proof {
            lemma_two_pow_monotone(i as nat, 126);
            lemma_two_pow_constants();
        }
        r = r * 2;
        i = i + 1;
    }
    r
}

/// The magnitude `m * 2^e`, rounded toward zero when `e` is negative.
pub open spec fn scaled_magnitude(m: int, e: int) -> int {
    if e >= 0 {
        m * two_pow(e as nat)
    } else {
        m / (two_pow((-e) as nat) as int)
    }
}

/// Computes `m * 2^e` rounded toward zero, or `2^127` when that magnitude is
/// at least `2^127`.
fn scale_magnitude(m: u128, e: i128) -> (r: u128)
    requires
        m < 0x20_0000_0000_0000,
        -4096 < e < 4096,
    ensures
        scaled_magnitude(m as int, e as int) >= 0,
        r <= 0x8000_0000_0000_0000_0000_0000_0000_0000,
        r == scaled_magnitude(m as int, e as int) || (r == 0x8000_0000_0000_0000_0000_0000_0000_0000
            && scaled_magnitude(m as int, e as int) >= 0x8000_0000_0000_0000_0000_0000_0000_0000),
{
    proof {
        lemma_two_pow_constants();
    }
    if e >= 0 {
        proof {
            assert(m * two_pow(e as nat) >= 0) by (nonlinear_arith)
                requires m >= 0;
        }
        if e >= 127 {
            proof {
                lemma_two_pow_monotone(127, e as nat);
                if m >= 1 {
                    assert(m * two_pow(e as nat) >= two_pow(e as nat)) by (nonlinear_arith)
                        requires m >= 1;
                }
            }
            if m == 0 {
                assert(m * two_pow(e as nat) == 0);
                0
            } else {
                0x8000_0000_0000_0000_0000_0000_0000_0000
            }
        } else {
            let p = two_pow_exec(e as u32);
            match m.checked_mul(p) {
                Some(x) => if x >= 0x8000_0000_0000_0000_0000_0000_0000_0000 {
                    0x8000_0000_0000_0000_0000_0000_0000_0000
                } else {
                    x
                },
                None => 0x8000_0000_0000_0000_0000_0000_0000_0000,
            }
        }
    } else {
        let k = -e;
        proof {
            lemma_two_pow_monotone(0, k as nat);
            assert((m as int) / (two_pow(k as nat) as int) >= 0) by (nonlinear_arith)
                requires m >= 0, two_pow(k as nat) >= 1;
        }
        if k >= 64 {
            proof {
                lemma_two_pow_monotone(64, k as nat);
                assert((m as int) / (two_pow(k as nat) as int) == 0) by (nonlinear_arith)
                    requires m < 0x20_0000_0000_0000, two_pow(k as nat) >= 0x1_0000_0000_0000_0000;
            }
            0
        } else {
            let p = two_pow_exec(k as u32);
            proof {
                assert((m as int) / (p as int) <= m) by (nonlinear_arith)
                    requires m >= 0, p >= 1;
            }
            m / p
        }
    }
}

/// Converts decoded float parts the way `as` does.
fn float_parts_to_int_exec(
    sign: u64,
    exp: u64,
    frac: u64,
    frac_bits: u32,
    bias: u64,
    exp_max: u64,
    min: i128,
    max: i128,
) -> (r: i128)
    requires
        sign <= 1,
        frac < two_pow(frac_bits as nat),
        frac_bits <= 52,
        exp <= exp_max <= 2047,
        bias <= 1023,
        min <= 0 <= max,
    ensures
        r == float_parts_to_int(
            sign as int,
            exp as int,
            frac as int,
            frac_bits as nat,
            bias as int,
            exp_max as int,
            min as int,
            max as int,
        ),
{
    if exp == exp_max {
        return if frac != 0 {
            0
        } else if sign == 1 {
            min
        } else {
            max
        };
    }
    proof {
        lemma_two_pow_monotone(frac_bits as nat, 52);
        lemma_two_pow_constants();
    }
    let hidden: u128 = two_pow_exec(frac_bits);
    let m: u128 = if exp == 0 { frac as u128 } else { frac as u128 + hidden };
    let e: i128 = if exp == 0 {
        1 - bias as i128 - frac_bits as i128
    } else {
        exp as i128 - bias as i128 - frac_bits as i128
    };
    let magnitude = scale_magnitude(m, e);
    if sign == 1 {
        let bound: u128 = if min == i128::MIN {
            0x8000_0000_0000_0000_0000_0000_0000_0000
        } else {
            (-min) as u128
        };
        if magnitude >= bound {
            min
        } else {
            -(magnitude as i128)
        }
    } else {
        if magnitude > max as u128 {
            max
        } else {
            magnitude as i128
        }
    }
}

/// What `f32::from_bits(bits) as T` gives, for an integer type `T` with range
/// `min..=max`.
pub fn float32_bits_to_int(bits: u32, min: i128, max: i128) -> (r: i128)
    requires
        min <= 0 <= max,
    ensures
        r == float32_to_int(bits as int, min as int, max as int),
        min <= r <= max,
{
    proof {
        lemma_two_pow_constants();
    }
    let sign = (bits / 0x8000_0000) as u64;
    let exp = ((bits / 0x80_0000) % 256) as u64;
    let frac = (bits % 0x80_0000) as u64;
    float_parts_to_int_exec(sign, exp, frac, 23, 127, 255, min, max)
}

/// What `f64::from_bits(bits) as T` gives, for an integer type `T` with range
/// `min..=max`.
pub fn float64_bits_to_int(bits: u64, min: i128, max: i128) -> (r: i128)
    requires
        min <= 0 <= max,
    ensures
        r == float64_to_int(bits as int, min as int, max as int),
        min <= r <= max,
{
    proof {
        lemma_two_pow_constants();
    }
    let sign = bits / 0x8000_0000_0000_0000;
    let exp = (bits / 0x10_0000_0000_0000) % 2048;
    let frac = bits % 0x10_0000_0000_0000;
    float_parts_to_int_exec(sign, exp, frac, 52, 1023, 2047, min, max)
}

} // verus!
