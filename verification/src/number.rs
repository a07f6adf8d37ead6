//! The IEEE 754 double of a 32-bit integer, computed on its bit pattern.

use vstd::prelude::*;

verus! {

/// Two to the power `e`.
pub open spec fn pow2(e: nat) -> nat
    decreases e,
{
    if e == 0 {
        1
    } else {
        2 * pow2((e - 1) as nat)
    }
}

/// The position of the highest set bit of a positive number.
pub open spec fn floor_log2(m: nat) -> nat
    decreases m,
{
    if m < 2 {
        0
    } else {
        1 + floor_log2(m / 2)
    }
}

/// The bit pattern of the double equal to the integer `n`, for
/// `|n| <= 2^52`: the sign, the biased exponent of the highest set bit,
/// and the bits below it as the fraction.
pub open spec fn int_f64_bits(n: int) -> int {
    if n == 0 {
        0
    } else {
        let m: nat = if n < 0 {
            (-n) as nat
        } else {
            n as nat
        };
        let e = floor_log2(m);
        let sign: int = if n < 0 {
            0x8000_0000_0000_0000
        } else {
            0
        };
        sign + (1023 + e) * 0x10_0000_0000_0000 + (m - pow2(e)) * pow2((52 - e) as nat)
    }
}

proof fn lemma_pow2_add(a: nat, b: nat)
    ensures
        pow2(a + b) == pow2(a) * pow2(b),
    decreases a,
{
    if a == 0 {
        assert(pow2(0) == 1);
        assert(a + b == b);
    } else {
        let a1 = (a - 1) as nat;
        lemma_pow2_add(a1, b);
        assert(pow2(a) == 2 * pow2(a1));
        assert((a + b - 1) as nat == a1 + b);
        assert(pow2(a + b) == 2 * pow2(a1 + b));
        let x = pow2(a1);
        let y = pow2(b);
        assert(2 * (x * y) == (2 * x) * y) by (nonlinear_arith);
    }
}

proof fn lemma_pow2_52()
    ensures
        pow2(52) == 0x10_0000_0000_0000,
{
    reveal_with_fuel(pow2, 53);
}

proof fn lemma_pow2_mono(a: nat, b: nat)
    requires
        a < b,
    ensures
        pow2(a) < pow2(b),
    decreases b,
{
    lemma_pow2_pos(b);
    if a < b - 1 {
        lemma_pow2_mono(a, (b - 1) as nat);
    }
}

proof fn lemma_pow2_pos(a: nat)
    ensures
        pow2(a) >= 1,
    decreases a,
{
    if a > 0 {
        lemma_pow2_pos((a - 1) as nat);
    }
}

/// The highest set bit of `m`: its position and its value.
fn top_bit(m: u64) -> (r: (u64, u64))
    requires
        1 <= m <= 0x8000_0000,
    ensures
        r.0 == floor_log2(m as nat),
        r.0 <= 31,
        r.1 == pow2(r.0 as nat),
        r.1 <= m < 2 * r.1,
{
    let mut t: u64 = m;
    let mut p: u64 = 1;
    let mut e: u64 = 0;
    proof {
        reveal_with_fuel(pow2, 33);
        assert(pow2(32) == 0x1_0000_0000);
    }
    while t >= 2
        invariant
            1 <= m <= 0x8000_0000,
            1 <= t,
            1 <= p,
            p == pow2(e as nat),
            p * t <= m < p * (t + 1),
            floor_log2(m as nat) == e + floor_log2(t as nat),
            e <= 31,
            pow2(32) == 0x1_0000_0000,
        decreases t,
    {
        let ghost t0 = t;
        let ghost p0 = p;
        assert(p * t >= p * 2) by (nonlinear_arith)
            requires
                t >= 2,
                p >= 1,
        ;
        t = t / 2;
        p = p * 2;
        e = e + 1;
        proof {
            assert(floor_log2(t0 as nat) == 1 + floor_log2(t as nat));
            assert(p * t <= m < p * (t + 1)) by (nonlinear_arith)
                requires
                    p0 * t0 <= m < p0 * (t0 + 1),
                    p == 2 * p0,
                    t0 == 2 * t || t0 == 2 * t + 1,
                    p0 >= 1,
            ;
            if e > 31 {
                lemma_pow2_mono(32, e as nat);
            }
        }
    }
    assert(t == 1);
    assert(p * t == p);
    assert(p * (t + 1) == 2 * p);
    assert(floor_log2(1) == 0);
    (e, p)
}

/// Two to the power `k`.
fn pow2_u64(k: u64) -> (r: u64)
    requires
        k <= 52,
    ensures
        r == pow2(k as nat),
{
    proof {
        reveal_with_fuel(pow2, 53);
        assert(pow2(52) == 0x10_0000_0000_0000);
        if k < 52 {
            lemma_pow2_mono(k as nat, 52);
        }
    }
    let mut q: u64 = 1;
    let mut i: u64 = 0;
    while i < k
        invariant
            k <= 52,
            i <= k,
            q == pow2(i as nat),
            pow2(k as nat) <= 0x10_0000_0000_0000,
        decreases k - i,
    {
        proof {
            if i + 1 < k {
                lemma_pow2_mono((i + 1) as nat, k as nat);
            }
        }
        q = q * 2;
        i = i + 1;
    }
    q
}

/// The bit pattern of `v as f64`: every 32-bit integer is a double exactly.
pub fn i32_f64_bits(v: i32) -> (r: u64)
    ensures
        r == int_f64_bits(v as int),
{
    if v == 0 {
        return 0;
    }
    let neg = v < 0;
    let m: u64 = if neg {
        (-(v as i64)) as u64
    } else {
        v as u64
    };
    let (e, p) = top_bit(m);
    let q = pow2_u64(52 - e);
    proof {
        lemma_pow2_add(e as nat, (52 - e) as nat);
        lemma_pow2_52();
        assert(p * q == 0x10_0000_0000_0000);
        assert((m - p) * q < 0x10_0000_0000_0000) by (nonlinear_arith)
            requires
                m - p < p,
                m >= p,
                p * q == 0x10_0000_0000_0000,
                q >= 1,
        ;
    }
    let frac: u64 = (m - p) * q;
    let exp: u64 = (1023 + e) * 0x10_0000_0000_0000;
    let sign: u64 = if neg {
        0x8000_0000_0000_0000
    } else {
        0
    };
    proof {
        let n = v as int;
        let mm: nat = if n < 0 {
            (-n) as nat
        } else {
            n as nat
        };
        assert(mm == m);
        assert(int_f64_bits(n) == sign + (1023 + e) * 0x10_0000_0000_0000 + (m - p) * q);
    }
    sign + exp + frac
}

} // verus!
