//! Small arithmetic helpers: factorials and binomial coefficients for the
//! permutation and combination ranks, and a Euclidean modulus.

use vstd::prelude::*;
use vstd::arithmetic::div_mod::lemma_fundamental_div_mod;
use vstd::arithmetic::div_mod::lemma_fundamental_div_mod_converse;
use vstd::arithmetic::div_mod::lemma_mod_bound;

verus! {

/// Mathematical factorial.
pub open spec fn fact(n: nat) -> nat
    decreases n,
{
    if n == 0 {
        1
    } else {
        n * fact((n - 1) as nat)
    }
}

/// Mathematical binomial coefficient, by Pascal's rule; 0 outside the
/// triangle (k < 0, n < 0 or k > n).
pub open spec fn binom(n: int, k: int) -> int
    decreases n, k,
{
    if n < 0 || k < 0 || k > n {
        0
    } else if k == 0 {
        1
    } else {
        binom(n - 1, k - 1) + binom(n - 1, k)
    }
}

/// 2 to the power of n (1 for n <= 0).
pub open spec fn pow2_int(n: int) -> int
    decreases n,
{
    if n <= 0 {
        1
    } else {
        2 * pow2_int(n - 1)
    }
}

/// The factorial grows monotonically.
pub proof fn lemma_fact_monotone(a: nat, b: nat)
    requires
        a <= b,
    ensures
        fact(a) <= fact(b),
    decreases b,
{
    if a < b {
        lemma_fact_monotone(a, (b - 1) as nat);
        let fb1 = fact((b - 1) as nat);
        assert(fact(b) == b * fb1);
        assert(b * fb1 >= fb1 * 1) by (nonlinear_arith)
            requires
                b >= 1,
                fb1 >= 0,
        ;
    }
}

/// The value of 20!, the largest factorial that fits in an i64.
pub proof fn lemma_fact_20()
    ensures
        fact(20) == 2432902008176640000,
{
    assert(fact(0) == 1);
    assert(fact(1) == 1);
    assert(fact(2) == 2);
    assert(fact(3) == 6);
    assert(fact(4) == 24);
    assert(fact(5) == 120);
    assert(fact(6) == 720);
    assert(fact(7) == 5040);
    assert(fact(8) == 40320);
    assert(fact(9) == 362880);
    assert(fact(10) == 3628800);
    assert(fact(11) == 39916800);
    assert(fact(12) == 479001600);
    assert(fact(13) == 6227020800);
    assert(fact(14) == 87178291200);
    assert(fact(15) == 1307674368000);
    assert(fact(16) == 20922789888000);
    assert(fact(17) == 355687428096000);
    assert(fact(18) == 6402373705728000);
    assert(fact(19) == 121645100408832000);
    assert(fact(20) == 2432902008176640000);
}

/// The small factorial values used by the permutation decoders.
pub proof fn lemma_fact_7()
    ensures
        fact(0) == 1,
        fact(1) == 1,
        fact(2) == 2,
        fact(3) == 6,
        fact(4) == 24,
        fact(5) == 120,
        fact(6) == 720,
        fact(7) == 5040,
{
    assert(fact(0) == 1);
    assert(fact(1) == 1);
    assert(fact(2) == 2);
    assert(fact(3) == 6);
    assert(fact(4) == 24);
    assert(fact(5) == 120);
    assert(fact(6) == 720);
    assert(fact(7) == 5040);
}

/// Binomial coefficients are non-negative.
pub proof fn lemma_binom_nonneg(n: int, k: int)
    ensures
        binom(n, k) >= 0,
    decreases n, k,
{
    if !(n < 0 || k < 0 || k > n) && k != 0 {
        lemma_binom_nonneg(n - 1, k - 1);
        lemma_binom_nonneg(n - 1, k);
    }
}

/// A row of Pascal's triangle is bounded by the corresponding power of two.
pub proof fn lemma_binom_le_pow2(n: int, k: int)
    requires
        n >= 0,
    ensures
        binom(n, k) <= pow2_int(n),
    decreases n, k,
{
    lemma_pow2_pos(n);
    if !(k < 0 || k > n) && k != 0 {
        lemma_binom_le_pow2(n - 1, k - 1);
        lemma_binom_le_pow2(n - 1, k);
    }
}

proof fn lemma_pow2_pos(n: int)
    ensures
        pow2_int(n) >= 1,
    decreases n,
{
    if n > 0 {
        lemma_pow2_pos(n - 1);
    }
}

proof fn lemma_pow2_20()
    ensures
        pow2_int(20) == 0x100000,
{
    assert(pow2_int(0) == 1);
    assert(pow2_int(1) == 2);
    assert(pow2_int(2) == 4);
    assert(pow2_int(3) == 8);
    assert(pow2_int(4) == 16);
    assert(pow2_int(5) == 32);
    assert(pow2_int(6) == 64);
    assert(pow2_int(7) == 128);
    assert(pow2_int(8) == 256);
    assert(pow2_int(9) == 512);
    assert(pow2_int(10) == 1024);
    assert(pow2_int(11) == 2048);
    assert(pow2_int(12) == 4096);
    assert(pow2_int(13) == 8192);
    assert(pow2_int(14) == 16384);
    assert(pow2_int(15) == 32768);
    assert(pow2_int(16) == 65536);
    assert(pow2_int(17) == 131072);
    assert(pow2_int(18) == 262144);
    assert(pow2_int(19) == 524288);
    assert(pow2_int(20) == 1048576);
}

/// Binomial coefficients for n up to 11 fit well below 2^11; this bounds
/// the summands of the UD-slice rank.
pub proof fn lemma_binom_le_2048(n: int, k: int)
    requires
        0 <= n <= 11,
    ensures
        0 <= binom(n, k) <= 2048,
{
    lemma_binom_nonneg(n, k);
    lemma_binom_le_pow2(n, k);
    lemma_pow2_monotone(n, 11);
    assert(pow2_int(0) == 1);
    assert(pow2_int(1) == 2);
    assert(pow2_int(2) == 4);
    assert(pow2_int(3) == 8);
    assert(pow2_int(4) == 16);
    assert(pow2_int(5) == 32);
    assert(pow2_int(6) == 64);
    assert(pow2_int(7) == 128);
    assert(pow2_int(8) == 256);
    assert(pow2_int(9) == 512);
    assert(pow2_int(10) == 1024);
    assert(pow2_int(11) == 2048);
}

/// The edge of Pascal's triangle: choosing all of n items can be done in
/// exactly one way.
pub proof fn lemma_binom_diag(n: int)
    requires
        n >= 0,
    ensures
        binom(n, n) == 1,
    decreases n,
{
    if n > 0 {
        lemma_binom_diag(n - 1);
        assert(binom(n, n) == binom(n - 1, n - 1) + binom(n - 1, n));
        assert(binom(n - 1, n) == 0);
    }
}

/// Computes n! for n up to 20, the largest factorial an i64 holds.
pub fn factorial(n: i64) -> (r: i64)
    requires
        0 <= n <= 20,
    ensures
        r == fact(n as nat),
    decreases n,
{
    proof {
        lemma_fact_monotone(n as nat, 20);
        lemma_fact_20();
        assert(fact(0) == 1);
        assert(fact(1) == 1);
    }
    if n == 1 || n == 0 {
        1
    } else {
        let rest = factorial(n - 1);
        proof {
            assert(rest == fact((n - 1) as nat));
            assert(fact(n as nat) == (n as nat) * fact(((n as nat) - 1) as nat));
            assert(((n as nat) - 1) as nat == (n - 1) as nat);
            assert(fact(n as nat) == n * rest);
        }
        n * rest
    }
}

/// Computes the binomial coefficient C(n, k) by building Pascal's triangle
/// row by row; returns 0 when k lies outside 0..=n. The bound on n matches
/// the factorials an i64 holds and keeps every intermediate sum small.
pub fn binomial(n: i64, k: i64) -> (r: i64)
    requires
        n <= 20,
    ensures
        r == binom(n as int, k as int),
{
    if n < 0 || k < 0 || k > n {
        return 0;
    }
    let n_u: usize = n as usize;
    let k_u: usize = k as usize;
    let mut row: Vec<i64> = Vec::new();
    row.push(1);
    let mut m: usize = 0;
    while m < n_u
        invariant
            m <= n_u == n,
            n <= 20,
            row@.len() == m + 1,
            forall|j: int| 0 <= j <= m ==> row@[j] == binom(m as int, j),
        decreases n_u - m,
    {
        let ghost prev = row@;
        let mut next: Vec<i64> = Vec::new();
        next.push(1);
        let mut j: usize = 1;
        while j <= m
            invariant
                1 <= j <= m + 1,
                m < n_u == n,
                n <= 20,
                row@ == prev,
                row@.len() == m + 1,
                forall|i: int| 0 <= i <= m ==> row@[i] == binom(m as int, i),
                next@.len() == j,
                forall|i: int| 0 <= i < j ==> next@[i] == binom(m + 1, i),
            decreases m + 1 - j,
        {
            proof {
                lemma_binom_nonneg(m as int, j - 1);
                lemma_binom_nonneg(m as int, j as int);
                lemma_binom_le_pow2(m + 1, j as int);
                lemma_binom_nonneg(m + 1, j as int);
                lemma_pow2_20();
                lemma_pow2_monotone(m + 1, 20);
                assert(binom(m + 1, j as int) == binom(m as int, j - 1) + binom(m as int, j as int));
            }
            next.push(row[j - 1] + row[j]);
            j = j + 1;
        }
        proof {
            lemma_binom_diag(m + 1);
        }
        next.push(1);
        row = next;
        m = m + 1;
    }
    row[k_u]
}

proof fn lemma_pow2_monotone(a: int, b: int)
    requires
        a <= b,
    ensures
        pow2_int(a) <= pow2_int(b),
    decreases b - a,
{
    lemma_pow2_pos(a);
    if a < b {
        lemma_pow2_monotone(a, b - 1);
        lemma_pow2_pos(b - 1);
    }
}

/// Euclidean modulus: the result always lies in 0..b, whatever the sign
/// of a. The divisor must fit the signed result type, and the one value
/// whose negation overflows is left out.
pub fn emod(a: isize, b: usize) -> (r: isize)
    requires
        1 <= b <= isize::MAX as usize,
        a > isize::MIN,
    ensures
        r == a as int % b as int,
        0 <= r < b,
{
    if a >= 0 {
        let r = ((a as usize) % b) as isize;
        proof {
            assert(a as usize % b == a as int % b as int);
        }
        r
    } else {
        let na_signed: isize = -a;
        let na: usize = na_signed as usize;
        let rem = na % b;
        proof {
            lemma_neg_mod(a as int, b as int);
        }
        if rem == 0 {
            0
        } else {
            (b - rem) as isize
        }
    }
}

/// Relates the Euclidean modulus of a negative number to the modulus of
/// its absolute value.
proof fn lemma_neg_mod(a: int, b: int)
    requires
        a < 0,
        b >= 1,
    ensures
        (-a) % b == 0 ==> a % b == 0,
        (-a) % b != 0 ==> a % b == b - ((-a) % b),
{
    lemma_fundamental_div_mod(-a, b);
    lemma_mod_bound(-a, b);
    let q = (-a) / b;
    let r = (-a) % b;
    if r == 0 {
        assert(a == (-q) * b + 0) by (nonlinear_arith)
            requires
                -a == b * q + r,
                r == 0,
        ;
        lemma_fundamental_div_mod_converse(a, b, -q, 0);
    } else {
        assert(a == (-q - 1) * b + (b - r)) by (nonlinear_arith)
            requires
                -a == b * q + r,
        ;
        lemma_fundamental_div_mod_converse(a, b, -q - 1, b - r);
    }
}

/// Wraps a possibly negative offset x into an array of length y.
pub fn r_cast(x: isize, y: usize) -> (r: usize)
    requires
        x < 0 ==> y + x >= 0,
    ensures
        x < 0 ==> r == y + x,
        x >= 0 ==> r == x,
{
    if x < 0 {
        // Negate by way of x + 1 so that even the smallest isize value
        // stays in range.
        y - ((-(x + 1)) as usize + 1)
    } else {
        x as usize
    }
}

} // verus!
