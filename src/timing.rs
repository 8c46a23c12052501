use vstd::prelude::*;

verus! {

/// A rational number `num / den`, as a stream's time base.
#[derive(Debug, Clone, Copy, PartialEq, Eq, Structural)]
pub struct Rational {
    pub num: i32,
    pub den: i32,
}

/// Division that rounds toward zero, as Rust's integer `/` does.
pub open spec fn trunc_div(a: int, b: int) -> int {
    let q: int = (vstd::math::abs(a) / vstd::math::abs(b)) as int;
    if (a < 0) != (b < 0) {
        -q
    } else {
        q
    }
}

/// The presentation time of a frame: a timestamp counted in units of the
/// stream's time base.
#[derive(Debug, Clone, Copy, PartialEq, Eq, Structural)]
pub struct TimingData {
    /// in time_base
    pub timestamp: i64,
    pub time_base: Rational,
}

/// The milliseconds of `timestamp` units of `num / den` seconds, rounded
/// toward zero.
pub open spec fn ms_of(timestamp: int, num: int, den: int) -> int {
    trunc_div(1000 * timestamp * num, den)
}

/// Rust's `a / b` on 64-bit integers, rounding toward zero.
pub fn div_trunc(a: i64, b: i64) -> (r: i64)
    requires
        b != 0,
        !(a == i64::MIN && b == -1),
    ensures
        r == trunc_div(a as int, b as int),
{
    let wa: i128 = a as i128;
    let wb: i128 = b as i128;
    let ua: i128 = if wa < 0 { -wa } else { wa };
    let ub: i128 = if wb < 0 { -wb } else { wb };
    let q: i128 = ua / ub;
    proof {
        vstd::arithmetic::div_mod::lemma_div_is_ordered_by_denominator(ua as int, 1, ub as int);
        vstd::arithmetic::div_mod::lemma_div_pos_is_pos(ua as int, ub as int);
        assert(ua as int / 1 == ua);
        if ub == 1 {
            assert(ua as int / 1 == ua);
        } else {
            vstd::arithmetic::div_mod::lemma_div_is_ordered_by_denominator(ua as int, 2, ub as int);
        }
    }
    if (a < 0) != (b < 0) {
        (-q) as i64
    } else {
        q as i64
    }
}

impl TimingData {
    /// The time base is usable and the millisecond value is computed in
    /// 64-bit arithmetic without overflow.
    pub open spec fn wf(&self) -> bool {
        &&& self.time_base.den != 0
        &&& i64::MIN <= 1000 * self.timestamp <= i64::MAX
        &&& i64::MIN <= 1000 * self.timestamp * self.time_base.num <= i64::MAX
        &&& !(1000 * self.timestamp * self.time_base.num == i64::MIN && self.time_base.den == -1)
    }

    pub open spec fn spec_ms(&self) -> int {
        ms_of(self.timestamp as int, self.time_base.num as int, self.time_base.den as int)
    }

    /// Pairs a frame's timestamp, when it has one, with the stream's time base.
    pub fn try_new(timestamp: Option<i64>, stream_time_base: Rational) -> (r: Option<Self>)
        ensures
            r == (match timestamp {
                Some(ts) => Some(TimingData { timestamp: ts, time_base: stream_time_base }),
                None => None,
            }),
    {
        match timestamp {
            Some(ts) => Some(Self { timestamp: ts, time_base: stream_time_base }),
            None => None,
        }
    }

    /// The timestamp in milliseconds: `1000 * timestamp * num / den`, rounded
    /// toward zero.
    pub fn ts_in_ms(&self) -> (r: i64)
        requires
            self.wf(),
        ensures
            r == self.spec_ms(),
    {
        let scaled: i64 = 1000 * self.timestamp * (self.time_base.num as i64);
        div_trunc(scaled, self.time_base.den as i64)
    }
}

proof fn lemma_trunc_div_monotonic(x: int, y: int, d: int)
    requires
        d > 0,
        x <= y,
    ensures
        trunc_div(x, d) <= trunc_div(y, d),
{
    let ax = vstd::math::abs(x);
    let ay = vstd::math::abs(y);
    if x >= 0 {
        vstd::arithmetic::div_mod::lemma_div_is_ordered(x, y, d);
    } else if y >= 0 {
        vstd::arithmetic::div_mod::lemma_div_pos_is_pos(ax as int, d);
        vstd::arithmetic::div_mod::lemma_div_pos_is_pos(y, d);
    } else {
        vstd::arithmetic::div_mod::lemma_div_is_ordered(ay as int, ax as int, d);
    }
}

/// Well-formed timing data has a millisecond value that fits in 64 bits.
pub proof fn ms_fits_i64(t: TimingData)
    requires
        t.wf(),
    ensures
        i64::MIN <= t.spec_ms() <= i64::MAX,
{
    let x = 1000 * t.timestamp * t.time_base.num;
    let d = t.time_base.den as int;
    let ax: int = if x < 0 { -x } else { x };
    let ad: int = if d < 0 { -d } else { d };
    vstd::arithmetic::div_mod::lemma_div_is_ordered_by_denominator(ax, 1, ad);
    vstd::arithmetic::div_mod::lemma_div_pos_is_pos(ax, ad);
    assert(ax / 1 == ax);
    if ad > 1 {
        vstd::arithmetic::div_mod::lemma_div_is_ordered_by_denominator(ax, 2, ad);
    }
}

/// With a positive denominator and a non-negative numerator, a later
/// timestamp never gives fewer milliseconds: a stream whose timestamps do not
/// decrease has milliseconds that do not decrease.
pub proof fn ms_non_decreasing(a: TimingData, b: TimingData)
    requires
        a.time_base == b.time_base,
        a.time_base.den > 0,
        a.time_base.num >= 0,
        a.timestamp <= b.timestamp,
    ensures
        a.spec_ms() <= b.spec_ms(),
{
    let num = a.time_base.num as int;
    let ta = a.timestamp as int;
    let tb = b.timestamp as int;
    assert(1000 * ta * num <= 1000 * tb * num) by (nonlinear_arith)
        requires
            ta <= tb,
            num >= 0,
    ;
    lemma_trunc_div_monotonic(1000 * ta * num, 1000 * tb * num, a.time_base.den as int);
}

/// With a positive denominator, a timestamp of `k` whole denominators is
/// exactly `1000 * k * num` milliseconds: the scale is `1000 * num / den`.
pub proof fn ms_of_whole_time_base_multiples(k: int, num: int, den: int)
    requires
        den > 0,
    ensures
        ms_of(k * den, num, den) == 1000 * k * num,
{
    let p = 1000 * k * num;
    assert(1000 * (k * den) * num == p * den) by (nonlinear_arith)
        requires
            p == 1000 * k * num,
    ;
    let ap: int = if p < 0 { -p } else { p };
    assert(vstd::math::abs(p * den) == ap * den) by (nonlinear_arith)
        requires
            den > 0,
            ap == (if p < 0 { -p } else { p }),
    ;
    vstd::arithmetic::div_mod::lemma_div_multiples_vanish(ap, den);
    assert(ap * den == den * ap) by (nonlinear_arith);
    assert((p * den < 0) == (p < 0)) by (nonlinear_arith)
        requires
            den > 0,
    ;
    assert(trunc_div(p * den, den) == p);
}

} // verus!
