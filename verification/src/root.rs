//! Division by a square root in whole numbers, rounded toward zero.
use vstd::prelude::*;

verus! {

/// Whether `r` is the square root of `n` rounded down.
pub open spec fn is_floor_root(n: int, r: int) -> bool {
    0 <= r && r * r <= n < (r + 1) * (r + 1)
}

/// The size of `c`, without its sign.
pub open spec fn magnitude(c: int) -> int {
    if c >= 0 {
        c
    } else {
        -c
    }
}

/// Whether `c` is `n` divided by the square root of `s`, rounded toward
/// zero: `c` has the sign of `n`, and its size is the largest `m` with
/// `m * m * s <= n * n`.
pub open spec fn is_over_root(n: int, s: int, c: int) -> bool {
    &&& n >= 0 ==> c >= 0
    &&& n <= 0 ==> c <= 0
    &&& c * c * s <= n * n
    &&& n * n < (magnitude(c) + 1) * (magnitude(c) + 1) * s
}

/// `n` divided by the square root of `s`, rounded toward zero, for `s > 0`.
pub open spec fn over_root(n: int, s: int) -> int {
    choose|c: int| is_over_root(n, s, c)
}

/// Every number from zero up has a square root rounded down.
pub proof fn lemma_floor_root_exists(n: int)
    requires
        n >= 0,
    ensures
        exists|r: int| is_floor_root(n, r),
    decreases n,
{
    if n == 0 {
        assert(is_floor_root(0, 0));
    } else {
        let less = n - 1;
        lemma_floor_root_exists(less);
        let r = choose|r: int| is_floor_root(less, r);
        if (r + 1) * (r + 1) <= n {
            assert(n < (r + 2) * (r + 2)) by (nonlinear_arith)
                requires
                    r >= 0,
                    n <= (r + 1) * (r + 1),
            ;
            assert(is_floor_root(n, r + 1));
        } else {
            assert(is_floor_root(n, r));
        }
    }
}

/// The root, rounded down, of the square of `n` divided by `s` and rounded
/// down is the size of `n` over the root of `s`.
proof fn lemma_root_of_quotient(n: int, s: int, m: int)
    requires
        s > 0,
        is_floor_root((n * n) / s, m),
    ensures
        m <= magnitude(n),
        is_over_root(
            n,
            s,
            if n >= 0 {
                m
            } else {
                -m
            },
        ),
{
    let square = n * n;
    let q = square / s;
    assert(square >= 0) by (nonlinear_arith)
        requires
            square == n * n,
    ;
    vstd::arithmetic::div_mod::lemma_fundamental_div_mod(square, s);
    vstd::arithmetic::div_mod::lemma_mod_pos_bound(square, s);
    assert(q * s <= square < (q + 1) * s) by (nonlinear_arith)
        requires
            square == s * q + (square % s),
            0 <= (square % s) < s,
    ;
    assert(m * m * s <= q * s) by (nonlinear_arith)
        requires
            m * m <= q,
            s > 0,
    ;
    assert((q + 1) * s <= (m + 1) * (m + 1) * s) by (nonlinear_arith)
        requires
            q + 1 <= (m + 1) * (m + 1),
            s > 0,
    ;
    let size = magnitude(n);
    assert(size * size == square) by (nonlinear_arith)
        requires
            size == n || size == -n,
            square == n * n,
    ;
    assert(m <= size) by (nonlinear_arith)
        requires
            m * m * s <= size * size,
            s >= 1,
            m >= 0,
            size >= 0,
    ;
    assert((-m) * (-m) == m * m) by (nonlinear_arith);
    if n == 0 {
        assert(m == 0);
    }
}

/// For `s > 0` there is `n` over the root of `s`, and `over_root` is it.
pub proof fn lemma_over_root_exists(n: int, s: int)
    requires
        s > 0,
    ensures
        is_over_root(n, s, over_root(n, s)),
{
    let q = (n * n) / s;
    assert(n * n >= 0) by (nonlinear_arith);
    vstd::arithmetic::div_mod::lemma_div_pos_is_pos(n * n, s);
    lemma_floor_root_exists(q);
    let m = choose|m: int| is_floor_root(q, m);
    lemma_root_of_quotient(n, s, m);
}

/// For `s > 0` no two numbers are `n` over the root of `s`.
pub proof fn lemma_over_root_is_unique(n: int, s: int, c: int, d: int)
    requires
        s > 0,
        is_over_root(n, s, c),
        is_over_root(n, s, d),
    ensures
        c == d,
{
    let a = magnitude(c);
    let b = magnitude(d);
    assert(a * a == c * c) by (nonlinear_arith)
        requires
            a == c || a == -c,
    ;
    assert(b * b == d * d) by (nonlinear_arith)
        requires
            b == d || b == -d,
    ;
    assert(a < b + 1) by (nonlinear_arith)
        requires
            a >= 0,
            b >= 0,
            s > 0,
            a * a * s < (b + 1) * (b + 1) * s,
    ;
    assert(b < a + 1) by (nonlinear_arith)
        requires
            a >= 0,
            b >= 0,
            s > 0,
            b * b * s < (a + 1) * (a + 1) * s,
    ;
    if n == 0 {
        assert(c == 0);
    }
}

/// For `s > 0`, what meets `is_over_root` is `over_root`.
pub proof fn lemma_over_root(n: int, s: int, c: int)
    requires
        s > 0,
        is_over_root(n, s, c),
    ensures
        c == over_root(n, s),
{
    lemma_over_root_is_unique(n, s, c, over_root(n, s));
}

/// Scaling `a` by `t` and dividing by a root that is at least the size of
/// `a` gives at most the size of `t`.
pub proof fn lemma_over_root_bound(a: int, t: int, s: int)
    requires
        a * a <= s,
        s > 0,
    ensures
        magnitude(over_root(a * t, s)) <= magnitude(t),
{
    lemma_over_root_exists(a * t, s);
    let c = over_root(a * t, s);
    let m = magnitude(c);
    let u = magnitude(t);
    assert(m * m == c * c) by (nonlinear_arith)
        requires
            m == c || m == -c,
    ;
    assert(u * u == t * t) by (nonlinear_arith)
        requires
            u == t || u == -t,
    ;
    assert((a * t) * (a * t) == (a * a) * (t * t)) by (nonlinear_arith);
    assert((a * a) * (t * t) <= s * (t * t)) by (nonlinear_arith)
        requires
            a * a <= s,
    ;
    assert(m <= u) by (nonlinear_arith)
        requires
            m * m * s <= s * (u * u),
            s > 0,
            m >= 0,
            u >= 0,
    ;
}

/// The square root of `n`, rounded down.
pub fn floor_sqrt(n: u128) -> (r: u64)
    ensures
        is_floor_root(n as int, r as int),
{
    let mut low: u128 = 0;
    let mut high: u128 = 0x1_0000_0000_0000_0000;
    assert(n < high * high) by (nonlinear_arith)
        requires
            n <= u128::MAX,
            high == 0x1_0000_0000_0000_0000,
    ;
    while high - low > 1
        invariant
            low < high <= 0x1_0000_0000_0000_0000,
            low * low <= n < high * high,
        decreases high - low,
    {
        let mid: u128 = low + (high - low) / 2;
        assert(mid * mid < 0x1_0000_0000_0000_0000 * 0x1_0000_0000_0000_0000) by (nonlinear_arith)
            requires
                0 <= mid < 0x1_0000_0000_0000_0000,
        ;
        if mid * mid <= n {
            low = mid;
        } else {
            high = mid;
        }
    }
    low as u64
}

/// `n` divided by the square root of `s`, rounded toward zero.
pub fn div_by_root(n: i64, s: u128) -> (c: i64)
    requires
        s > 0,
    ensures
        c == over_root(n as int, s as int),
{
    let size: u128 = if n >= 0 {
        n as u128
    } else {
        (-(n + 1)) as u128 + 1
    };
    assert(size * size == n * n) by (nonlinear_arith)
        requires
            size == n || size == -n,
    ;
    assert(size * size <= 0x8000_0000_0000_0000 * 0x8000_0000_0000_0000) by (nonlinear_arith)
        requires
            0 <= size <= 0x8000_0000_0000_0000,
    ;
    let m: u64 = floor_sqrt(size * size / s);
    proof {
        lemma_root_of_quotient(n as int, s as int, m as int);
    }
    let c: i64 = if n >= 0 {
        m as i64
    } else if m == 0x8000_0000_0000_0000 {
        i64::MIN
    } else {
        -(m as i64)
    };
    proof {
        lemma_over_root(n as int, s as int, c as int);
    }
    c
}

} // verus!
