use vstd::prelude::*;
use crate::random::random_in;

verus! {

/// All continuous quantities are fixed-point integers: a real value `x` is
/// represented by the integer `x * SCALE`, rounded toward zero.
pub const SCALE: i64 = 1_000_000;

/// Largest magnitude accepted by the blending and averaging helpers; generous
/// enough for every parameter range of the synthesis components.
pub const VAL_LIMIT: i64 = 100_000_000_000;

/// Sum of a sequence of fixed-point values, as a mathematical integer.
pub open spec fn sum(s: Seq<i64>) -> int
    decreases s.len(),
{
    if s.len() == 0 {
        0
    } else {
        sum(s.drop_last()) + s.last()
    }
}

/// Sum of the scaled squares `v[i] * v[i] / SCALE` of a sequence.
pub open spec fn sum_sq_scaled(s: Seq<i64>) -> int
    decreases s.len(),
{
    if s.len() == 0 {
        0
    } else {
        sum_sq_scaled(s.drop_last()) + s.last() * s.last() / (SCALE as int)
    }
}

proof fn lemma_sum_take_step(s: Seq<i64>, i: int)
    requires
        0 <= i < s.len(),
    ensures
        sum(s.take(i + 1)) == sum(s.take(i)) + s[i],
        sum_sq_scaled(s.take(i + 1)) == sum_sq_scaled(s.take(i)) + s[i] * s[i] / (SCALE as int),
{
    assert(s.take(i + 1).drop_last() =~= s.take(i));
    assert(s.take(i + 1).last() == s[i]);
}

proof fn lemma_sum_bounds(s: Seq<i64>, lo: int, hi: int)
    requires
        forall|j: int| 0 <= j < s.len() ==> lo <= #[trigger] s[j] <= hi,
        lo <= 0 <= hi,
    ensures
        s.len() * lo <= sum(s) <= s.len() * hi,
    decreases s.len(),
{
    if s.len() > 0 {
        lemma_sum_bounds(s.drop_last(), lo, hi);
        assert(forall|j: int|
            0 <= j < s.drop_last().len() ==> lo <= #[trigger] s.drop_last()[j] <= hi);
        assert((s.len() - 1) * lo + lo == s.len() * lo) by (nonlinear_arith);
        assert((s.len() - 1) * hi + hi == s.len() * hi) by (nonlinear_arith);
    }
}

/// Performs a weighted average with a randomly generated weight between two
/// values.  However, if a mutation is triggered (with probability `r`, given
/// as a fixed-point fraction of `SCALE`), the value returned is completely
/// random; the calling code supplies it, as the legal ranges vary.
pub fn random_weighted_average(v_self: i64, v_other: i64, r: i64, random_val: i64) -> (out: i64)
    requires
        0 <= v_self <= VAL_LIMIT,
        0 <= v_other <= VAL_LIMIT,
    ensures
        out == random_val || {
            &&& v_self <= out <= v_other || v_other <= out <= v_self
            &&& 0 <= out <= VAL_LIMIT
        },
{
    let beta: i64 = random_in(0, SCALE + 1);
    let mutation: i64 = random_in(0, SCALE);

    if mutation < r {
        random_val
    } else {
        proof {
            lemma_blend_between(v_self as int, v_other as int, beta as int);
        }
        let num: i128 = beta as i128 * v_self as i128 + (SCALE - beta) as i128 * v_other as i128;
        let blend: i128 = num / (SCALE as i128);
        blend as i64
    }
}

/// A convex combination `(b*a + (SCALE-b)*o) / SCALE` with `0 <= b <= SCALE`
/// lies between `a` and `o`.
proof fn lemma_blend_between(a: int, o: int, b: int)
    requires
        0 <= a <= VAL_LIMIT as int,
        0 <= o <= VAL_LIMIT as int,
        0 <= b <= SCALE as int,
    ensures
        0 <= b * a + (SCALE as int - b) * o <= (SCALE as int) * (VAL_LIMIT as int),
        a <= (b * a + (SCALE as int - b) * o) / (SCALE as int) <= o
            || o <= (b * a + (SCALE as int - b) * o) / (SCALE as int) <= a,
{
    let s = SCALE as int;
    let raw = b * a + (s - b) * o;
    if a <= o {
        assert(a * s <= raw <= o * s) by (nonlinear_arith)
            requires
                0 <= b <= s,
                a <= o,
                0 <= a,
                raw == b * a + (s - b) * o,
        ;
        assert(a <= raw / s <= o) by (nonlinear_arith)
            requires
                a * s <= raw <= o * s,
                0 <= a,
                s == 1_000_000,
        ;
        assert(o * s <= s * (VAL_LIMIT as int)) by (nonlinear_arith)
            requires
                o <= VAL_LIMIT as int,
                s == 1_000_000,
        ;
    } else {
        assert(o * s <= raw <= a * s) by (nonlinear_arith)
            requires
                0 <= b <= s,
                o <= a,
                0 <= o,
                raw == b * a + (s - b) * o,
        ;
        assert(o <= raw / s <= a) by (nonlinear_arith)
            requires
                o * s <= raw <= a * s,
                0 <= o,
                s == 1_000_000,
        ;
        assert(a * s <= s * (VAL_LIMIT as int)) by (nonlinear_arith)
            requires
                a <= VAL_LIMIT as int,
                s == 1_000_000,
        ;
    }
}

/// Calculates the mean of a set of fixed-point elements.
pub fn mean(values: &Vec<i64>) -> (r: i64)
    requires
        values@.len() >= 1,
        values@.len() <= 10_000_000,
        forall|j: int| 0 <= j < values@.len() ==> 0 <= #[trigger] values@[j] <= VAL_LIMIT,
    ensures
        r == sum(values@) / (values@.len() as int),
        0 <= r <= VAL_LIMIT,
{
    let ghost s = values@;
    let mut acc: i128 = 0;
    let mut i: usize = 0;
    while i < values.len()
        invariant
            0 <= i <= s.len(),
            s == values@,
            s.len() >= 1,
            s.len() <= 10_000_000,
            forall|j: int| 0 <= j < s.len() ==> 0 <= #[trigger] s[j] <= VAL_LIMIT,
            acc == sum(s.take(i as int)),
            0 <= acc <= i * VAL_LIMIT,
        decreases s.len() - i,
    {
        proof {
            lemma_sum_take_step(s, i as int);
            assert(i * VAL_LIMIT + VAL_LIMIT == (i + 1) * VAL_LIMIT) by (nonlinear_arith);
        }
        acc = acc + values[i] as i128;
        i = i + 1;
    }
    proof {
        assert(s.take(s.len() as int) =~= s);
        lemma_sum_bounds(s, 0, VAL_LIMIT as int);
        assert(sum(s) / (s.len() as int) <= VAL_LIMIT as int) by (nonlinear_arith)
            requires
                sum(s) <= s.len() * (VAL_LIMIT as int),
                s.len() >= 1,
        ;
    }
    (acc / (values.len() as i128)) as i64
}

/// The scaled variance of a sequence of fixed-point elements: the mean of
/// the scaled squares minus the scaled square of the mean.
pub open spec fn variance_scaled(s: Seq<i64>) -> int {
    sum_sq_scaled(s) / (s.len() as int) - (sum(s) / (s.len() as int)) * (sum(s) / (s.len()
        as int)) / (SCALE as int)
}

/// A variance estimate floored at zero; truncation can push the raw
/// difference a little below it.
pub open spec fn nonneg_variance(s: Seq<i64>) -> int {
    if variance_scaled(s) < 0 {
        0
    } else {
        variance_scaled(s)
    }
}

/// Calculates the standard deviation of a set of fixed-point elements: the
/// integer square root of the scaled variance, rescaled into fixed point.
pub fn std_dev(values: &Vec<i64>) -> (r: i64)
    requires
        values@.len() >= 1,
        values@.len() <= 10_000_000,
        forall|j: int| 0 <= j < values@.len() ==> 0 <= #[trigger] values@[j] <= VAL_LIMIT,
    ensures
        0 <= r,
        (r as int) * (r as int) <= nonneg_variance(values@) * (SCALE as int),
        nonneg_variance(values@) * (SCALE as int) < (r as int + 1) * (r as int + 1),
{
    let ghost s = values@;
    let ghost sq_lim: int = (VAL_LIMIT as int) * (VAL_LIMIT as int) / (SCALE as int);
    let mut acc: i128 = 0;
    let mut i: usize = 0;
    while i < values.len()
        invariant
            0 <= i <= s.len(),
            s == values@,
            s.len() >= 1,
            s.len() <= 10_000_000,
            forall|j: int| 0 <= j < s.len() ==> 0 <= #[trigger] s[j] <= VAL_LIMIT,
            acc == sum_sq_scaled(s.take(i as int)),
            0 <= acc <= i * sq_lim,
            sq_lim == (VAL_LIMIT as int) * (VAL_LIMIT as int) / (SCALE as int),
            sq_lim == 10_000_000_000_000_000int,
        decreases s.len() - i,
    {
        let v = values[i];
        proof {
            lemma_sum_take_step(s, i as int);
            assert(v as int * (v as int) <= VAL_LIMIT as int * (VAL_LIMIT as int))
                by (nonlinear_arith)
                requires
                    0 <= v as int <= VAL_LIMIT as int,
            ;
            assert(v as int * (v as int) / (SCALE as int) <= sq_lim) by (nonlinear_arith)
                requires
                    0 <= v as int * (v as int) <= VAL_LIMIT as int * (VAL_LIMIT as int),
                    sq_lim == (VAL_LIMIT as int) * (VAL_LIMIT as int) / (SCALE as int),
            ;
            assert(i * sq_lim + sq_lim == (i + 1) * sq_lim) by (nonlinear_arith);
            assert(i * sq_lim <= 10_000_000 * sq_lim) by (nonlinear_arith)
                requires
                    0 <= i <= 10_000_000,
                    sq_lim >= 0,
            ;
        }
        acc = acc + (v as i128) * (v as i128) / (SCALE as i128);
        i = i + 1;
    }
    let m = mean(values);
    proof {
        assert(s.take(s.len() as int) =~= s);
        assert(s.len() * sq_lim <= 10_000_000 * sq_lim) by (nonlinear_arith)
            requires
                s.len() <= 10_000_000,
                sq_lim >= 0,
        ;
        assert((acc as int) / (s.len() as int) <= sq_lim) by (nonlinear_arith)
            requires
                0 <= acc as int <= s.len() * sq_lim,
                s.len() >= 1,
        ;
    }
    let m2: i128 = acc / (values.len() as i128);
    proof {
        assert(m as int * (m as int) <= VAL_LIMIT as int * (VAL_LIMIT as int))
            by (nonlinear_arith)
            requires
                0 <= m as int <= VAL_LIMIT as int,
        ;
    }
    let mm: i128 = (m as i128) * (m as i128) / (SCALE as i128);
    let variance: i128 = if m2 - mm < 0 {
        0
    } else {
        m2 - mm
    };
    proof {
        assert(variance == nonneg_variance(s));
        assert(0 <= (variance as int) * (SCALE as int) <= 10_000_000_000_000_000int * 1_000_000)
            by (nonlinear_arith)
            requires
                0 <= variance as int <= 10_000_000_000_000_000int,
                SCALE as int == 1_000_000,
        ;
    }
    let root: u64 = isqrt((variance as u128) * (SCALE as u128));
    proof {
        if root as int >= 0x8000_0000_0000_0000 {
            assert((root as int) * (root as int) >= 0x8000_0000_0000_0000 * 0x8000_0000_0000_0000)
                by (nonlinear_arith)
                requires
                    root as int >= 0x8000_0000_0000_0000,
            ;
        }
    }
    root as i64
}

/// Integer square root: the greatest `r` with `r * r <= n`.
pub fn isqrt(n: u128) -> (r: u64)
    ensures
        (r as int) * (r as int) <= n as int,
        (n as int) < (r as int + 1) * (r as int + 1),
{
    let mut lo: u128 = 0;
    let mut hi: u128 = 0x1_0000_0000_0000_0000;
    proof {
        assert((hi as int) * (hi as int) > n as int) by (nonlinear_arith)
            requires
                hi as int == 0x1_0000_0000_0000_0000,
                (n as int) < 0x1_0000_0000_0000_0000 * 0x1_0000_0000_0000_0000,
        ;
    }
    while hi - lo > 1
        invariant
            (lo as int) * (lo as int) <= n as int,
            (hi as int) * (hi as int) > n as int,
            lo < hi <= 0x1_0000_0000_0000_0000,
        decreases hi - lo,
    {
        let mid: u128 = lo + (hi - lo) / 2;
        proof {
            assert((mid as int) * (mid as int) < 0x1_0000_0000_0000_0000 * 0x1_0000_0000_0000_0000)
                by (nonlinear_arith)
                requires
                    0 <= mid as int && (mid as int) < 0x1_0000_0000_0000_0000,
            ;
        }
        if mid * mid <= n {
            lo = mid;
        } else {
            hi = mid;
        }
    }
    lo as u64
}

/// Upper bound accepted by [`exp_fp`]; about `exp(21)` stays below [`EXP_CAP`].
pub const EXP_INPUT_LIMIT: i64 = 21_000_000;

/// Euler's number in fixed point.
pub const EXP_E: i64 = 2_718_282;

/// Saturation bound of [`exp_fp`].
pub const EXP_CAP: i64 = 2_000_000_000_000_000;

/// Fixed-point exponential `exp(x / SCALE) * SCALE`, saturating at
/// [`EXP_CAP`]: the integer part by repeated multiplication with `e`, the
/// fractional part by a degree-four series.
pub fn exp_fp(x: i64) -> (r: i64)
    requires
        0 <= x <= EXP_INPUT_LIMIT,
    ensures
        SCALE <= r <= EXP_CAP,
        x == 0 ==> r == SCALE,
{
    let n: i64 = x / SCALE;
    let frac: i64 = x % SCALE;
    let mut acc: i64 = SCALE;
    let mut i: i64 = 0;
    while i < n
        invariant
            0 <= i <= n <= 21,
            SCALE <= acc <= EXP_CAP,
            n == 0 ==> acc == SCALE,
        decreases n - i,
    {
        let wide: i128 = acc as i128 * (EXP_E as i128) / (SCALE as i128);
        proof {
            assert(acc as int * (EXP_E as int) / (SCALE as int) >= acc as int)
                by (nonlinear_arith)
                requires
                    acc as int >= 0,
                    EXP_E as int >= SCALE as int,
                    SCALE as int == 1_000_000,
            ;
            assert(acc as int * (EXP_E as int) <= EXP_CAP as int * (EXP_E as int))
                by (nonlinear_arith)
                requires
                    0 <= acc as int <= EXP_CAP as int,
                    EXP_E as int >= 0,
            ;
        }
        acc = if wide > EXP_CAP as i128 {
            EXP_CAP
        } else {
            wide as i64
        };
        i = i + 1;
    }
    let f = frac as i128;
    let s = SCALE as i128;
    proof {
        assert(0 <= f * f <= 1_000_000i128 * 1_000_000) by (nonlinear_arith)
            requires
                0 <= f < 1_000_000,
        ;
    }
    let t2: i128 = f * f / (2 * s);
    proof {
        assert(0 <= t2 * f <= 1_000_000i128 * 1_000_000) by (nonlinear_arith)
            requires
                0 <= f < 1_000_000,
                0 <= t2 <= 1_000_000,
        ;
    }
    let t3: i128 = t2 * f / (3 * s);
    proof {
        assert(0 <= t3 * f <= 1_000_000i128 * 1_000_000) by (nonlinear_arith)
            requires
                0 <= f < 1_000_000,
                0 <= t3 <= 1_000_000,
        ;
    }
    let t4: i128 = t3 * f / (4 * s);
    let t: i128 = s + f + t2 + t3 + t4;
    proof {
        assert(0 <= acc as int * (t as int) <= 2_000_000_000_000_000 * 5_000_000int)
            by (nonlinear_arith)
            requires
                0 <= acc as int <= 2_000_000_000_000_000,
                0 <= t as int <= 5_000_000,
        ;
    }
    let wide: i128 = acc as i128 * t / s;
    proof {
        assert((acc as int) * (t as int) / (s as int) >= acc as int) by (nonlinear_arith)
            requires
                acc as int >= 0,
                t as int >= s as int,
                s as int == 1_000_000,
        ;
        if x == 0 {
            assert(f == 0);
            assert(f * f == 0) by (nonlinear_arith)
                requires
                    f == 0,
            ;
            assert(t2 == 0);
            assert(t2 * f == 0) by (nonlinear_arith)
                requires
                    t2 == 0,
            ;
            assert(t3 == 0);
            assert(t3 * f == 0) by (nonlinear_arith)
                requires
                    t3 == 0,
            ;
            assert(t4 == 0);
            assert(t == s);
            assert((acc as int) * (s as int) / (s as int) == acc as int) by (nonlinear_arith)
                requires
                    s as int == 1_000_000,
                    0 <= acc as int,
            ;
        }
    }
    if wide > EXP_CAP as i128 {
        EXP_CAP
    } else {
        wide as i64
    }
}

/// Fixed-point decimal logarithm `log10(x / SCALE) * SCALE`: the integer part
/// by repeated division, the fractional part by linear interpolation between
/// consecutive powers of ten.
pub fn log10_fp(x: i64) -> (r: i64)
    requires
        1 <= x,
    ensures
        -6 * SCALE <= r <= 14 * SCALE,
{
    let mut m: i64 = x;
    let mut e: i64 = 0;
    while m >= 10 * SCALE && e < 13
        invariant
            1 <= m,
            0 <= e <= 13,
        decreases 13 - e,
    {
        m = m / 10;
        e = e + 1;
    }
    while m < SCALE && e > -6
        invariant
            1 <= m,
            -6 <= e <= 13,
        decreases e + 6,
    {
        m = m * 10;
        e = e - 1;
    }
    let mc: i64 = if m < SCALE {
        SCALE
    } else if m >= 10 * SCALE {
        10 * SCALE - 1
    } else {
        m
    };
    let frac: i64 = (mc - SCALE) / 9;
    e * SCALE + frac
}

/// Sigmoid function, in fixed point: `1 / (1 + exp(-x))` scaled by `SCALE`,
/// saturating to `0` and `SCALE` for arguments of large magnitude.
pub fn sigmoid(x: i64) -> (r: i64)
    ensures
        0 <= r <= SCALE,
        x == 0 ==> r == SCALE / 2,
{
    if x >= 0 {
        let e = exp_fp(if x > EXP_INPUT_LIMIT {
            EXP_INPUT_LIMIT
        } else {
            x
        });
        let inv: i64 = ((SCALE as i128) * (SCALE as i128) / ((SCALE + e) as i128)) as i64;
        proof {
            lemma_sigmoid_quotient(e as int);
            if x == 0 {
                assert((SCALE as int) * (SCALE as int) / ((SCALE + e) as int) == 500_000)
                    by (nonlinear_arith)
                    requires
                        e as int == 1_000_000,
                        SCALE as int == 1_000_000,
                ;
            }
        }
        SCALE - inv
    } else {
        let nx: i64 = if x < -EXP_INPUT_LIMIT {
            EXP_INPUT_LIMIT
        } else {
            -x
        };
        let e = exp_fp(nx);
        proof {
            lemma_sigmoid_quotient(e as int);
        }
        ((SCALE as i128) * (SCALE as i128) / ((SCALE + e) as i128)) as i64
    }
}

/// `SCALE * SCALE / (SCALE + e)` lies in `[0, SCALE]` whenever `e >= 0`.
proof fn lemma_sigmoid_quotient(e: int)
    requires
        0 <= e,
    ensures
        0 <= (SCALE as int) * (SCALE as int) / ((SCALE as int) + e) <= SCALE as int,
{
    let s = SCALE as int;
    assert(0 <= s * s / (s + e) <= s) by (nonlinear_arith)
        requires
            s == 1_000_000,
            e >= 0,
    ;
}

/// Maps a non-negative raw error to a bounded fitness value: the error is
/// divided by `divisor`, its decimal logarithm is exponentiated into a cost
/// (for a negative logarithm, the reciprocal of the exponential of its
/// magnitude), and the fitness is `2 * sigmoid(-cost)`, always within
/// `[0, 2 * SCALE]`.  A zero error scores exactly one.
pub fn bounded_cost_fitness(raw: i64, divisor: i64) -> (r: i64)
    requires
        0 <= raw,
        1 <= divisor,
    ensures
        0 <= r <= 2 * SCALE,
        raw == 0 ==> r == SCALE,
{
    let u: i64 = raw / divisor;
    let cost: i64 = if u == 0 {
        0
    } else {
        let l: i64 = log10_fp(u);
        if l >= 0 {
            exp_fp(if l > EXP_INPUT_LIMIT {
                EXP_INPUT_LIMIT
            } else {
                l
            })
        } else {
            let e = exp_fp(-l);
            proof {
                assert(0 <= (SCALE as int) * (SCALE as int) / (e as int) <= SCALE as int)
                    by (nonlinear_arith)
                    requires
                        SCALE as int <= e as int,
                        SCALE as int == 1_000_000,
                ;
            }
            let down: i64 = ((SCALE as i128) * (SCALE as i128) / (e as i128)) as i64;
            down
        }
    };
    2 * sigmoid(-cost)
}

/// The Bhaskara rational approximation of the half-cycle sine, as a
/// mathematical function: for `x` in `[0, SCALE]` half-turns,
/// `sin(pi * x / SCALE)` scaled by `SCALE`.
pub open spec fn sin_half_spec(x: int) -> int {
    let s = SCALE as int;
    let g = x * (s - x);
    16 * g * s / (5 * s * s - 4 * g)
}

/// Sine over whole turns as a mathematical function: one full cycle is
/// `SCALE` units of `t`, mirrored and negated over the two half-cycles.
pub open spec fn sin_turns_spec(t: int) -> int {
    let s = SCALE as int;
    let p = t % s;
    if p <= s / 2 {
        sin_half_spec(2 * p)
    } else {
        -sin_half_spec(2 * (p - s / 2))
    }
}

/// Half-cycle sine by the Bhaskara rational approximation.  Exact at the
/// ends and the midpoint.
fn sin_half(x: i64) -> (r: i64)
    requires
        0 <= x <= SCALE,
    ensures
        0 <= r <= SCALE,
        r == sin_half_spec(x as int),
{
    proof {
        let xi = x as int;
        let s = SCALE as int;
        assert(0 <= xi * (s - xi) && 4 * (xi * (s - xi)) <= s * s) by (nonlinear_arith)
            requires
                0 <= xi <= s,
                s == 1_000_000,
        ;
        assert(0 <= 16 * (xi * (s - xi)) * s <= 4_000_000_000_000_000_000int) by (nonlinear_arith)
            requires
                0 <= xi * (s - xi),
                4 * (xi * (s - xi)) <= s * s,
                s == 1_000_000,
        ;
        assert(16 * (xi * (s - xi)) * s == 16 * (xi * (s - xi)) * 1_000_000) by (nonlinear_arith)
            requires
                s == 1_000_000,
        ;
        assert(0 <= 16 * (xi * (s - xi)) * s / (5 * s * s - 4 * (xi * (s - xi))) <= s)
            by (nonlinear_arith)
            requires
                0 <= xi * (s - xi),
                4 * (xi * (s - xi)) <= s * s,
                s == 1_000_000,
        ;
    }
    let g: i64 = x * (SCALE - x);
    let num: i64 = 16 * g * SCALE;
    let den: i64 = 5 * (SCALE * SCALE) - 4 * g;
    num / den
}

/// Sine over whole turns: one full cycle is `SCALE` units of `t`, and the
/// result is `sin(2 * pi * t / SCALE)` scaled by `SCALE`.
pub fn sin_turns(t: i64) -> (r: i64)
    requires
        0 <= t <= 4_000_000_000_000,
    ensures
        -SCALE <= r <= SCALE,
        r == sin_turns_spec(t as int),
{
    let p: i64 = t % SCALE;
    if p <= SCALE / 2 {
        sin_half(2 * p)
    } else {
        -sin_half(2 * (p - SCALE / 2))
    }
}

/// Cosine over whole turns, as the sine shifted by a quarter cycle.
pub fn cos_turns(t: i64) -> (r: i64)
    requires
        0 <= t <= 3_999_999_000_000,
    ensures
        -SCALE <= r <= SCALE,
        r == sin_turns_spec(t as int + SCALE as int / 4),
{
    sin_turns(t + SCALE / 4)
}

/// One term of a convolution: the product of a filter point with the input
/// sample under it, or zero where the filter hangs over the input's edge.
pub open spec fn conv_term(filter: Seq<i64>, input: Seq<i64>, k: int, j: int) -> int {
    let idx = k - filter.len() / 2 + j;
    if 0 <= idx < input.len() {
        crate::signal_processing::scaled_value(filter[j] as int, input[idx] as int)
    } else {
        0
    }
}

/// The first `j` terms of the convolution sum at output position `k`.
pub open spec fn conv_sum(filter: Seq<i64>, input: Seq<i64>, k: int, j: int) -> int
    decreases j,
{
    if j <= 0 {
        0
    } else {
        conv_sum(filter, input, k, j - 1) + conv_term(filter, input, k, j - 1)
    }
}

/// Largest filter point magnitude accepted by [`convolve`].
pub const COEF_LIMIT: i64 = 4_000_000_000;

/// Longest filter accepted by [`convolve`].
pub const MAX_FILTER_LEN: usize = 1_024;

/// Performs a convolution between a given filter and an input signal: output
/// point `k` is the sum over the filter of each point times the input sample
/// under it, with the filter centered at `k`.
pub fn convolve(filter: &Vec<i64>, input: &Vec<i64>) -> (out: Vec<i64>)
    requires
        2 <= filter@.len() <= MAX_FILTER_LEN as int,
        input@.len() <= 50_000_000,
        forall|j: int|
            0 <= j < filter@.len() ==> -COEF_LIMIT <= #[trigger] filter@[j] <= COEF_LIMIT,
        forall|j: int|
            0 <= j < input@.len() ==> -(crate::signal_processing::SAMPLE_LIMIT as int)
                <= #[trigger] input@[j] <= crate::signal_processing::SAMPLE_LIMIT as int,
    ensures
        out@.len() == input@.len() + filter@.len() / 2 - 1,
        forall|k: int|
            0 <= k < out@.len() ==> #[trigger] out@[k] == conv_sum(
                filter@,
                input@,
                k,
                filter@.len() as int,
            ),
{
    let flen = filter.len();
    let n: usize = input.len() + flen / 2 - 1;
    let mut out: Vec<i64> = Vec::new();
    let mut k: usize = 0;
    while k < n
        invariant
            0 <= k <= n,
            n == input@.len() + filter@.len() / 2 - 1,
            2 <= filter@.len() <= MAX_FILTER_LEN as int,
            input@.len() <= 50_000_000,
            flen == filter@.len(),
            forall|j: int|
                0 <= j < filter@.len() ==> -COEF_LIMIT <= #[trigger] filter@[j] <= COEF_LIMIT,
            forall|j: int|
                0 <= j < input@.len() ==> -(crate::signal_processing::SAMPLE_LIMIT as int)
                    <= #[trigger] input@[j] <= crate::signal_processing::SAMPLE_LIMIT as int,
            out@.len() == k,
            forall|q: int|
                0 <= q < k ==> #[trigger] out@[q] == conv_sum(
                    filter@,
                    input@,
                    q,
                    filter@.len() as int,
                ),
        decreases n - k,
    {
        let mut acc: i64 = 0;
        let mut j: usize = 0;
        while j < flen
            invariant
                0 <= j <= flen,
                flen == filter@.len(),
                2 <= filter@.len() <= MAX_FILTER_LEN as int,
                input@.len() <= 50_000_000,
                0 <= k < input@.len() + filter@.len() / 2 - 1,
                forall|q: int|
                    0 <= q < filter@.len() ==> -COEF_LIMIT <= #[trigger] filter@[q] <= COEF_LIMIT,
                forall|q: int|
                    0 <= q < input@.len() ==> -(crate::signal_processing::SAMPLE_LIMIT as int)
                        <= #[trigger] input@[q] <= crate::signal_processing::SAMPLE_LIMIT as int,
                acc == conv_sum(filter@, input@, k as int, j as int),
                -(j as int) * 4_000_000_000_000_000 <= acc <= (j as int) * 4_000_000_000_000_000,
            decreases flen - j,
        {
            let idx_signed: i128 = k as i128 - (flen / 2) as i128 + j as i128;
            proof {
                lemma_conv_term_bound(filter@, input@, k as int, j as int);
                assert((j as int) * 4_000_000_000_000_000 + 4_000_000_000_000_000 == (j as int + 1)
                    * 4_000_000_000_000_000) by (nonlinear_arith);
                assert((j as int) * 4_000_000_000_000_000 <= 1_024 * 4_000_000_000_000_000int)
                    by (nonlinear_arith)
                    requires
                        0 <= j as int <= 1_024,
                ;
            }
            if idx_signed >= 0 && idx_signed < input.len() as i128 {
                let idx: usize = idx_signed as usize;
                let f = filter[j];
                let v = input[idx];
                let prod: i128 = (f as i128) * (v as i128);
                proof {
                    assert(-(4_000_000_000_000_000_000_000int) <= (f as int) * (v as int)
                        <= 4_000_000_000_000_000_000_000int) by (nonlinear_arith)
                        requires
                            -4_000_000_000 <= f as int <= 4_000_000_000,
                            -1_000_000_000_000 <= v as int <= 1_000_000_000_000,
                    ;
                }
                let term_wide: i128 = if prod >= 0 {
                    prod / (SCALE as i128)
                } else {
                    -((-prod) / (SCALE as i128))
                };
                acc = acc + term_wide as i64;
            }
            j = j + 1;
        }
        out.push(acc);
        k = k + 1;
    }
    out
}

/// A single convolution term never exceeds the product of the filter and
/// sample headrooms.
proof fn lemma_conv_term_bound(filter: Seq<i64>, input: Seq<i64>, k: int, j: int)
    requires
        0 <= j < filter.len(),
        forall|q: int| 0 <= q < filter.len() ==> -COEF_LIMIT <= #[trigger] filter[q] <= COEF_LIMIT,
        forall|q: int|
            0 <= q < input.len() ==> -(crate::signal_processing::SAMPLE_LIMIT as int)
                <= #[trigger] input[q] <= crate::signal_processing::SAMPLE_LIMIT as int,
    ensures
        -4_000_000_000_000_000 <= conv_term(filter, input, k, j) <= 4_000_000_000_000_000,
{
    let idx = k - filter.len() / 2 + j;
    if 0 <= idx < input.len() {
        let f = filter[j] as int;
        let v = input[idx] as int;
        assert(-(4_000_000_000_000_000_000_000int) <= f * v <= 4_000_000_000_000_000_000_000int)
            by (nonlinear_arith)
            requires
                -4_000_000_000 <= f <= 4_000_000_000,
                -1_000_000_000_000 <= v <= 1_000_000_000_000,
        ;
    }
}

/// Creates a Blackman window filter of a given size.
pub fn blackman_window(size: usize) -> (r: Vec<i64>)
    requires
        2 <= size <= MAX_FILTER_LEN,
    ensures
        r@.len() == size as int,
        forall|i: int| 0 <= i < r@.len() ==> -SCALE <= #[trigger] r@[i] <= SCALE,
{
    let mut out: Vec<i64> = Vec::new();
    let mut i: usize = 0;
    while i < size
        invariant
            0 <= i <= size,
            2 <= size <= MAX_FILTER_LEN,
            out@.len() == i,
            forall|j: int| 0 <= j < i ==> -SCALE <= #[trigger] out@[j] <= SCALE,
        decreases size - i,
    {
        let t1: i64 = ((i as i64) * SCALE) / ((size - 1) as i64);
        let t2: i64 = (2 * (i as i64) * SCALE) / ((size - 1) as i64);
        let c1 = cos_turns(t1);
        let c2 = cos_turns(t2);
        let w: i64 = 420_000 - c1 / 2 + 2 * (c2 / 25);
        let wc: i64 = if w > SCALE {
            SCALE
        } else if w < -SCALE {
            -SCALE
        } else {
            w
        };
        out.push(wc);
        i = i + 1;
    }
    out
}

/// Inverts the frequencies of a filter.  For example, inverting a low-pass
/// filter results in a high-pass filter.
pub fn spectral_invert(filter: &Vec<i64>) -> (r: Vec<i64>)
    requires
        filter@.len() % 2 == 0,
        filter@.len() <= MAX_FILTER_LEN as int,
        forall|i: int|
            0 <= i < filter@.len() ==> -1_999_000_000 <= #[trigger] filter@[i] <= 1_999_000_000,
    ensures
        r@.len() == filter@.len(),
        forall|i: int|
            0 <= i < r@.len() ==> #[trigger] r@[i] == -filter@[i] + if i == filter@.len() / 2 {
                SCALE as int
            } else {
                0
            },
        forall|i: int| 0 <= i < r@.len() ==> -2_000_000_000 <= #[trigger] r@[i] <= 2_000_000_000,
{
    let n = filter.len();
    let mut out: Vec<i64> = Vec::new();
    let mut i: usize = 0;
    while i < n
        invariant
            0 <= i <= n,
            n == filter@.len(),
            n <= MAX_FILTER_LEN,
            forall|j: int|
                0 <= j < filter@.len() ==> -1_999_000_000 <= #[trigger] filter@[j] <= 1_999_000_000,
            out@.len() == i,
            forall|j: int|
                0 <= j < i ==> #[trigger] out@[j] == -filter@[j] + if j == filter@.len() / 2 {
                    SCALE as int
                } else {
                    0
                },
            forall|j: int| 0 <= j < i ==> -2_000_000_000 <= #[trigger] out@[j] <= 2_000_000_000,
        decreases n - i,
    {
        let add_center: i64 = if i == n / 2 {
            SCALE
        } else {
            0
        };
        out.push(-filter[i] + add_center);
        i = i + 1;
    }
    out
}

/// Performs addition over the elements of two slices, over the overlapping
/// prefix.
pub fn add(a: &Vec<i64>, b: &Vec<i64>) -> (r: Vec<i64>)
    requires
        forall|i: int| 0 <= i < a@.len() ==> -2_000_000_000 <= #[trigger] a@[i] <= 2_000_000_000,
        forall|i: int| 0 <= i < b@.len() ==> -2_000_000_000 <= #[trigger] b@[i] <= 2_000_000_000,
    ensures
        r@.len() == if a@.len() <= b@.len() {
            a@.len()
        } else {
            b@.len()
        },
        forall|i: int| 0 <= i < r@.len() ==> #[trigger] r@[i] == a@[i] + b@[i],
{
    let n: usize = if a.len() <= b.len() {
        a.len()
    } else {
        b.len()
    };
    let mut out: Vec<i64> = Vec::new();
    let mut i: usize = 0;
    while i < n
        invariant
            0 <= i <= n,
            n <= a@.len(),
            n <= b@.len(),
            forall|j: int| 0 <= j < a@.len() ==> -2_000_000_000 <= #[trigger] a@[j] <= 2_000_000_000,
            forall|j: int| 0 <= j < b@.len() ==> -2_000_000_000 <= #[trigger] b@[j] <= 2_000_000_000,
            out@.len() == i,
            forall|j: int| 0 <= j < i ==> #[trigger] out@[j] == a@[j] + b@[j],
        decreases n - i,
    {
        out.push(a[i] + b[i]);
        i = i + 1;
    }
    out
}

} // verus!

