use vstd::prelude::*;

use crate::constants::{MAX_FAN_SPEED_PERCENT, MAX_TEMP_LIMIT, MIN_TEMP_LIMIT};
use crate::models::FanPoint;
use crate::num::{clamp, clamp_i64, in_i64, trunc_div};

verus! {

/// Speed on the line through (temp_old, speed_old) and (temp, speed) at `temp_now`,
/// rounded toward zero and limited to 0..=100; on a vertical segment, `speed_old`.
pub open spec fn interpolate(temp_old: int, speed_old: int, temp: int, speed: int, temp_now: int) -> int {
    if temp == temp_old {
        clamp(speed_old, 0, 100)
    } else {
        clamp(
            speed_old + trunc_div((speed - speed_old) * (temp_now - temp_old), temp - temp_old),
            0,
            100,
        )
    }
}

/// The interpolation stays within `i64` at every step.
pub open spec fn interpolation_fits(temp_old: int, speed_old: int, temp: int, speed: int, temp_now: int) -> bool {
    &&& in_i64(temp - temp_old)
    &&& temp != temp_old ==> {
        &&& in_i64(speed - speed_old)
        &&& in_i64(temp_now - temp_old)
        &&& in_i64((speed - speed_old) * (temp_now - temp_old))
        &&& in_i64(trunc_div((speed - speed_old) * (temp_now - temp_old), temp - temp_old))
        &&& in_i64(speed_old + trunc_div((speed - speed_old) * (temp_now - temp_old), temp - temp_old))
    }
}

/// Linear interpolation of the fan speed between two curve points, limited to 0..=100.
pub fn speed_handle(temp_old: i64, speed_old: i64, temp: i64, speed: i64, temp_now: i64) -> (r: i64)
    requires
        interpolation_fits(temp_old as int, speed_old as int, temp as int, speed as int, temp_now as int),
    ensures
        r == interpolate(temp_old as int, speed_old as int, temp as int, speed as int, temp_now as int),
        0 <= r <= 100,
{
    let temp_diff = temp - temp_old;
    if temp_diff == 0 {
        return clamp_i64(speed_old, 0, MAX_FAN_SPEED_PERCENT);
    }
    let product = (speed - speed_old) * (temp_now - temp_old);
    let quotient = match product.checked_div(temp_diff) {
        Some(q) => q,
        None => 0,
    };
    let result = speed_old + quotient;
    clamp_i64(result, 0, MAX_FAN_SPEED_PERCENT)
}

/// A curve point with its temperature limited to the plausible range and its speed to 0..=100.
pub open spec fn clamp_point(p: FanPoint) -> FanPoint {
    FanPoint {
        temperature: clamp(p.temperature as int, MIN_TEMP_LIMIT as int, MAX_TEMP_LIMIT as int) as i32,
        speed: clamp(p.speed as int, 0, MAX_FAN_SPEED_PERCENT as int) as i32,
    }
}

/// Index `i` is the first point of `c` whose temperature, once limited, is that of `c[i]`.
pub open spec fn first_with_its_temp(c: Seq<FanPoint>, i: int) -> bool {
    &&& 0 <= i < c.len()
    &&& forall|j: int|
        0 <= j < i ==> #[trigger] clamp_point(c[j]).temperature != clamp_point(c[i]).temperature
}

pub open spec fn has_temp(r: Seq<FanPoint>, t: i32) -> bool {
    exists|k: int| 0 <= k < r.len() && #[trigger] r[k].temperature == t
}

/// Temperatures strictly increase along the curve.
pub open spec fn strictly_increasing(r: Seq<FanPoint>) -> bool {
    forall|i: int, j: int| 0 <= i < j < r.len() ==> #[trigger] r[i].temperature < #[trigger] r[j].temperature
}

/// `r` is `c` with every point limited, sorted by temperature, keeping of equal temperatures
/// the point that came first.
pub open spec fn is_sanitized_of(c: Seq<FanPoint>, r: Seq<FanPoint>) -> bool {
    &&& strictly_increasing(r)
    &&& forall|k: int| 0 <= k < r.len() ==> #[trigger] comes_first(c, r[k])
    &&& forall|i: int| 0 <= i < c.len() ==> #[trigger] has_temp(r, clamp_point(c[i]).temperature)
}

/// `p` is the limited form of the first point of `c` that has its temperature.
pub open spec fn comes_first(c: Seq<FanPoint>, p: FanPoint) -> bool {
    exists|i: int| #[trigger] first_with_its_temp(c, i) && p == clamp_point(c[i])
}

/// Every point lies in the plausible temperature range and the 0..=100 speed range.
pub open spec fn points_in_range(r: Seq<FanPoint>) -> bool {
    forall|k: int|
        0 <= k < r.len() ==> MIN_TEMP_LIMIT <= #[trigger] r[k].temperature <= MAX_TEMP_LIMIT && 0
            <= r[k].speed <= MAX_FAN_SPEED_PERCENT
}

fn clamp_fan_point(p: FanPoint) -> (r: FanPoint)
    ensures
        r == clamp_point(p),
{
    FanPoint {
        temperature: clamp_i64(p.temperature as i64, MIN_TEMP_LIMIT, MAX_TEMP_LIMIT) as i32,
        speed: clamp_i64(p.speed as i64, 0, MAX_FAN_SPEED_PERCENT) as i32,
    }
}

/// Limits every point to the plausible ranges, sorts the points by temperature and keeps,
/// of points that share a temperature, the first one. `side` labels the curve for diagnostics.
pub fn sanitize_curve(curve: &[FanPoint], side: &str) -> (r: Vec<FanPoint>)
    ensures
        is_sanitized_of(curve@, r@),
        points_in_range(r@),
        r@.len() == 0 <==> curve@.len() == 0,
{
    let ghost c = curve@;
    let mut out: Vec<FanPoint> = Vec::new();
    let mut t: i32 = MIN_TEMP_LIMIT as i32;
    while t <= MAX_TEMP_LIMIT as i32
        invariant
            c == curve@,
            MIN_TEMP_LIMIT <= t <= MAX_TEMP_LIMIT + 1,
            strictly_increasing(out@),
            points_in_range(out@),
            forall|k: int| 0 <= k < out@.len() ==> #[trigger] out@[k].temperature < t,
            forall|k: int| 0 <= k < out@.len() ==> #[trigger] comes_first(c, out@[k]),
            forall|i: int|
                0 <= i < c.len() && clamp_point(c[i]).temperature < t ==> #[trigger] has_temp(
                    out@,
                    clamp_point(c[i]).temperature,
                ),
        decreases MAX_TEMP_LIMIT + 1 - t,
    {
        let mut j: usize = 0;
        let mut found = false;
        while j < curve.len() && !found
            invariant
                c == curve@,
                j <= curve.len(),
                found ==> j < curve.len() && clamp_point(c[j as int]).temperature == t,
                forall|jj: int| 0 <= jj < j ==> #[trigger] clamp_point(c[jj]).temperature != t,
            decreases curve.len() - j + (if found { 0int } else { 1int }),
        {
            let p = clamp_fan_point(curve[j]);
            if p.temperature == t {
                found = true;
            } else {
                j = j + 1;
            }
        }
        let ghost before = out@;
        if found {
            let p = clamp_fan_point(curve[j]);
            out.push(p);
            proof {
                assert(first_with_its_temp(c, j as int));
                assert(out@[out@.len() - 1] == clamp_point(c[j as int]));
                assert forall|k: int| 0 <= k < out@.len() implies #[trigger] comes_first(c, out@[k]) by {
                    if k < before.len() {
                        assert(out@[k] == before[k]);
                        assert(comes_first(c, before[k]));
                    } else {
                        assert(out@[k] == clamp_point(c[j as int]));
                    }
                }
                assert forall|i: int|
                    0 <= i < c.len() && clamp_point(c[i]).temperature < t + 1 implies #[trigger] has_temp(
                    out@,
                    clamp_point(c[i]).temperature,
                ) by {
                    if clamp_point(c[i]).temperature < t {
                        assert(has_temp(before, clamp_point(c[i]).temperature));
                        let k = choose|k: int| 0 <= k < before.len() && #[trigger] before[k].temperature == clamp_point(c[i]).temperature;
                        assert(out@[k] == before[k]);
                    } else {
                        assert(out@[out@.len() - 1].temperature == t);
                    }
                }
            }
        } else {
            proof {
                assert forall|i: int|
                    0 <= i < c.len() && clamp_point(c[i]).temperature < t + 1 implies #[trigger] has_temp(
                    out@,
                    clamp_point(c[i]).temperature,
                ) by {
                    assert(clamp_point(c[i]).temperature != t);
                }
            }
        }
        t = t + 1;
    }
    proof {
        assert forall|i: int| 0 <= i < c.len() implies #[trigger] has_temp(out@, clamp_point(c[i]).temperature) by {
            assert(clamp_point(c[i]).temperature < t);
        }
        if c.len() > 0 {
            assert(has_temp(out@, clamp_point(c[0]).temperature));
        }
        if out@.len() > 0 {
            assert(comes_first(c, out@[0]));
        }
    }
    out
}

pub open spec fn contains_point(a: Seq<FanPoint>, p: FanPoint) -> bool {
    exists|i: int| 0 <= i < a.len() && #[trigger] a[i] == p
}

/// Two curves with strictly increasing temperatures are equal when every point of the second is
/// a point of the first and every temperature of the first occurs in the second.
pub proof fn lemma_sorted_curves_equal(a: Seq<FanPoint>, b: Seq<FanPoint>)
    requires
        strictly_increasing(a),
        strictly_increasing(b),
        forall|k: int| 0 <= k < b.len() ==> #[trigger] contains_point(a, b[k]),
        forall|i: int| 0 <= i < a.len() ==> #[trigger] has_temp(b, a[i].temperature),
    ensures
        a == b,
    decreases a.len(),
{
    if a.len() == 0 {
        if b.len() > 0 {
            assert(contains_point(a, b[0]));
        }
        assert(a =~= b);
    } else if b.len() == 0 {
        assert(has_temp(b, a[0].temperature));
    } else {
        assert(contains_point(a, b[0]));
        let i0 = choose|i: int| 0 <= i < a.len() && #[trigger] a[i] == b[0];
        assert(has_temp(b, a[0].temperature));
        let k0 = choose|k: int| 0 <= k < b.len() && #[trigger] b[k].temperature == a[0].temperature;
        if i0 != 0 {
            assert(a[0].temperature < a[i0].temperature);
        }
        if k0 != 0 {
            assert(b[0].temperature < b[k0].temperature);
        }
        assert(b[0] == a[0]);
        let a2 = a.drop_first();
        let b2 = b.drop_first();
        assert forall|k: int| 0 <= k < b2.len() implies #[trigger] contains_point(a2, b2[k]) by {
            assert(b2[k] == b[k + 1]);
            assert(contains_point(a, b[k + 1]));
            let i = choose|i: int| 0 <= i < a.len() && #[trigger] a[i] == b[k + 1];
            assert(b[0].temperature < b[k + 1].temperature);
            assert(i != 0);
            assert(a2[i - 1] == a[i]);
        }
        assert forall|i: int| 0 <= i < a2.len() implies #[trigger] has_temp(b2, a2[i].temperature) by {
            assert(a2[i] == a[i + 1]);
            assert(has_temp(b, a[i + 1].temperature));
            let k = choose|k: int| 0 <= k < b.len() && #[trigger] b[k].temperature == a[i + 1].temperature;
            assert(a[0].temperature < a[i + 1].temperature);
            assert(k != 0);
            assert(b2[k - 1] == b[k]);
        }
        assert forall|i: int, j: int| 0 <= i < j < a2.len() implies #[trigger] a2[i].temperature
            < #[trigger] a2[j].temperature by {
            assert(a2[i] == a[i + 1] && a2[j] == a[j + 1]);
        }
        assert forall|i: int, j: int| 0 <= i < j < b2.len() implies #[trigger] b2[i].temperature
            < #[trigger] b2[j].temperature by {
            assert(b2[i] == b[i + 1] && b2[j] == b[j + 1]);
        }
        lemma_sorted_curves_equal(a2, b2);
        assert forall|i: int| 0 <= i < a.len() implies a[i] == b[i] by {
            if i > 0 {
                assert(a[i] == a2[i - 1]);
                assert(b[i] == b2[i - 1]);
            }
        }
        assert(a =~= b);
    }
}

/// Sanitizing a curve that is already sorted and in range gives the same curve back.
pub proof fn lemma_sanitize_fixed_point(r: Seq<FanPoint>, r2: Seq<FanPoint>)
    requires
        strictly_increasing(r),
        points_in_range(r),
        is_sanitized_of(r, r2),
    ensures
        r2 == r,
{
    assert forall|i: int| 0 <= i < r.len() implies #[trigger] clamp_point(r[i]) == r[i] by {}
    assert forall|k: int| 0 <= k < r2.len() implies #[trigger] contains_point(r, r2[k]) by {
        assert(comes_first(r, r2[k]));
        let i = choose|i: int| #[trigger] first_with_its_temp(r, i) && r2[k] == clamp_point(r[i]);
        assert(clamp_point(r[i]) == r[i]);
    }
    assert forall|i: int| 0 <= i < r.len() implies #[trigger] has_temp(r2, r[i].temperature) by {
        assert(has_temp(r2, clamp_point(r[i]).temperature));
        assert(clamp_point(r[i]) == r[i]);
    }
    lemma_sorted_curves_equal(r, r2);
}

/// A sanitized curve lies in range and is empty only for an empty input.
pub proof fn lemma_sanitized_in_range(c: Seq<FanPoint>, r: Seq<FanPoint>)
    requires
        is_sanitized_of(c, r),
    ensures
        points_in_range(r),
        r.len() == 0 <==> c.len() == 0,
{
    assert forall|k: int| 0 <= k < r.len() implies MIN_TEMP_LIMIT <= #[trigger] r[k].temperature
        <= MAX_TEMP_LIMIT && 0 <= r[k].speed <= MAX_FAN_SPEED_PERCENT by {
        assert(comes_first(c, r[k]));
    }
    if c.len() > 0 {
        assert(has_temp(r, clamp_point(c[0]).temperature));
    }
    if r.len() > 0 {
        assert(comes_first(c, r[0]));
    }
}

/// The points of `c` that limiting changes, each with its limited form, in curve order.
pub open spec fn corrections(c: Seq<FanPoint>) -> Seq<(FanPoint, FanPoint)>
    decreases c.len(),
{
    if c.len() == 0 {
        Seq::empty()
    } else {
        let rest = corrections(c.drop_last());
        if clamp_point(c.last()) != c.last() {
            rest.push((c.last(), clamp_point(c.last())))
        } else {
            rest
        }
    }
}

/// The points `sanitize_curve` corrects, each with its corrected form, so that the corrections
/// can be reported.
pub fn curve_corrections(curve: &[FanPoint]) -> (r: Vec<(FanPoint, FanPoint)>)
    ensures
        r@ == corrections(curve@),
{
    let mut out: Vec<(FanPoint, FanPoint)> = Vec::new();
    let mut i: usize = 0;
    while i < curve.len()
        invariant
            i <= curve@.len(),
            out@ == corrections(curve@.subrange(0, i as int)),
        decreases curve.len() - i,
    {
        let p = curve[i];
        let q = clamp_fan_point(p);
        proof {
            let next = curve@.subrange(0, i + 1);
            assert(next.drop_last() =~= curve@.subrange(0, i as int));
            assert(next.last() == p);
        }
        if q != p {
            out.push((p, q));
        }
        i = i + 1;
    }
    assert(curve@.subrange(0, curve@.len() as int) =~= curve@);
    out
}

/// Index of the first point at or after `i` whose temperature reaches `x`, or the length.
pub open spec fn first_at_or_above(c: Seq<FanPoint>, x: int, i: int) -> int
    decreases c.len() - i,
{
    if i >= c.len() {
        c.len() as int
    } else if c[i].temperature >= x {
        i
    } else {
        first_at_or_above(c, x, i + 1)
    }
}

/// The reading limited to the plausible temperature range.
pub open spec fn clamp_temp(t: int) -> int {
    clamp(t, MIN_TEMP_LIMIT as int, MAX_TEMP_LIMIT as int)
}

/// Speed of curve `c` at temperature `temp_now`: the first point's speed up to its temperature,
/// the last point's speed past the last temperature, and in between the interpolation on the
/// segment that ends at the first point reaching the temperature.
pub open spec fn curve_speed(c: Seq<FanPoint>, temp_now: int) -> int
    recommends
        c.len() > 0,
{
    let x = clamp_temp(temp_now);
    if x <= c[0].temperature {
        clamp(c[0].speed as int, 0, 100)
    } else {
        let k = first_at_or_above(c, x, 1);
        if k >= c.len() {
            clamp(c[c.len() - 1].speed as int, 0, 100)
        } else {
            interpolate(
                c[k - 1].temperature as int,
                c[k - 1].speed as int,
                c[k].temperature as int,
                c[k].speed as int,
                x,
            )
        }
    }
}

/// The interpolation that `curve_speed` performs stays within `i64`.
pub open spec fn curve_speed_fits(c: Seq<FanPoint>, temp_now: int) -> bool {
    let x = clamp_temp(temp_now);
    let k = first_at_or_above(c, x, 1);
    c.len() > 0 && x > c[0].temperature && k < c.len() ==> interpolation_fits(
        c[k - 1].temperature as int,
        c[k - 1].speed as int,
        c[k].temperature as int,
        c[k].speed as int,
        x,
    )
}

/// Speed of `curve` at `temp_now` (see `curve_speed`); `None` for an empty curve.
/// `side` labels the curve for diagnostics.
pub fn find_speed_for_temp(curve: &[FanPoint], temp_now: i64, side: &str) -> (r: Option<i64>)
    requires
        curve_speed_fits(curve@, temp_now as int),
    ensures
        curve@.len() == 0 ==> r is None,
        curve@.len() > 0 ==> r == Some(curve_speed(curve@, temp_now as int) as i64),
        r matches Some(s) ==> 0 <= s <= 100,
{
    if curve.len() == 0 {
        return None;
    }
    let ghost c = curve@;
    let x = clamp_i64(temp_now, MIN_TEMP_LIMIT, MAX_TEMP_LIMIT);
    let mut temp_old = curve[0].temperature as i64;
    let mut speed_old = curve[0].speed as i64;
    if x <= temp_old {
        return Some(clamp_i64(speed_old, 0, MAX_FAN_SPEED_PERCENT));
    }
    let mut i: usize = 1;
    while i < curve.len()
        invariant
            c == curve@,
            1 <= i <= c.len(),
            x == clamp_temp(temp_now as int),
            x > c[0].temperature,
            first_at_or_above(c, x as int, 1) == first_at_or_above(c, x as int, i as int),
            temp_old == c[i - 1].temperature,
            speed_old == c[i - 1].speed,
            curve_speed_fits(c, temp_now as int),
        decreases c.len() - i,
    {
        let t = curve[i].temperature as i64;
        let s = curve[i].speed as i64;
        if t >= x {
            return Some(speed_handle(temp_old, speed_old, t, s, x));
        }
        temp_old = t;
        speed_old = s;
        i = i + 1;
    }
    Some(clamp_i64(speed_old, 0, MAX_FAN_SPEED_PERCENT))
}

/// Whether `speed_handle` may be called on these arguments.
pub fn interpolation_fits_check(temp_old: i64, speed_old: i64, temp: i64, speed: i64, temp_now: i64) -> (b: bool)
    ensures
        b == interpolation_fits(temp_old as int, speed_old as int, temp as int, speed as int, temp_now as int),
{
    let temp_diff = match temp.checked_sub(temp_old) {
        Some(d) => d,
        None => return false,
    };
    if temp_diff == 0 {
        return true;
    }
    let ds = match speed.checked_sub(speed_old) {
        Some(v) => v,
        None => return false,
    };
    let dt = match temp_now.checked_sub(temp_old) {
        Some(v) => v,
        None => return false,
    };
    let product = match ds.checked_mul(dt) {
        Some(v) => v,
        None => return false,
    };
    let quotient = match product.checked_div(temp_diff) {
        Some(v) => v,
        None => return false,
    };
    speed_old.checked_add(quotient).is_some()
}

/// Whether `find_speed_for_temp` may be called on these arguments.
pub fn curve_speed_fits_check(curve: &[FanPoint], temp_now: i64) -> (b: bool)
    ensures
        b == curve_speed_fits(curve@, temp_now as int),
{
    if curve.len() == 0 {
        return true;
    }
    let ghost c = curve@;
    let x = clamp_i64(temp_now, MIN_TEMP_LIMIT, MAX_TEMP_LIMIT);
    if x <= curve[0].temperature as i64 {
        return true;
    }
    let mut i: usize = 1;
    while i < curve.len()
        invariant
            c == curve@,
            1 <= i <= c.len(),
            x == clamp_temp(temp_now as int),
            x > c[0].temperature,
            first_at_or_above(c, x as int, 1) == first_at_or_above(c, x as int, i as int),
        decreases c.len() - i,
    {
        if curve[i].temperature as i64 >= x {
            return interpolation_fits_check(
                curve[i - 1].temperature as i64,
                curve[i - 1].speed as i64,
                curve[i].temperature as i64,
                curve[i].speed as i64,
                x,
            );
        }
        i = i + 1;
    }
    true
}

proof fn lemma_first_at_or_above_is(c: Seq<FanPoint>, x: int, j: int, i: int)
    requires
        1 <= j <= i < c.len(),
        forall|k: int| j <= k < i ==> #[trigger] c[k].temperature < x,
        c[i].temperature >= x,
    ensures
        first_at_or_above(c, x, j) == i,
    decreases i - j,
{
    if j < i {
        lemma_first_at_or_above_is(c, x, j + 1, i);
    }
}

/// On a sanitized curve, the speed at a point's temperature is that point's speed: the
/// interpolation passes through every point.
pub proof fn lemma_curve_passes_through_points(c: Seq<FanPoint>, i: int)
    requires
        strictly_increasing(c),
        points_in_range(c),
        0 <= i < c.len(),
    ensures
        curve_speed(c, c[i].temperature as int) == c[i].speed,
{
    let x = c[i].temperature as int;
    assert(clamp_temp(x) == x);
    if i > 0 {
        assert(c[0].temperature < x);
        lemma_first_at_or_above_is(c, x, 1, i);
        let a = c[i].speed - c[i - 1].speed;
        let b = c[i].temperature - c[i - 1].temperature;
        assert(b > 0);
        if a >= 0 {
            vstd::arithmetic::div_mod::lemma_div_by_multiple(a, b);
            assert(trunc_div(a * b, b) == a) by (nonlinear_arith)
                requires a >= 0, b > 0, (a * b) / b == a;
        } else {
            vstd::arithmetic::div_mod::lemma_div_by_multiple(-a, b);
            assert(trunc_div(a * b, b) == a) by (nonlinear_arith)
                requires a < 0, b > 0, ((-a) * b) / b == -a;
        }
    }
}

/// Up to the first point's temperature the speed is the first point's; past the last point's
/// temperature it is the last point's (speeds limited to 0..=100).
pub proof fn lemma_curve_flat_outside(c: Seq<FanPoint>, temp_now: int)
    requires
        strictly_increasing(c),
        c.len() > 0,
    ensures
        clamp_temp(temp_now) <= c[0].temperature ==> curve_speed(c, temp_now) == clamp(c[0].speed as int, 0, 100),
        clamp_temp(temp_now) > c[c.len() - 1].temperature ==> curve_speed(c, temp_now) == clamp(c[c.len() - 1].speed as int, 0, 100),
{
    let x = clamp_temp(temp_now);
    if x > c[c.len() - 1].temperature && x > c[0].temperature {
        lemma_first_past_all(c, x, 1);
    }
}

proof fn lemma_first_past_all(c: Seq<FanPoint>, x: int, j: int)
    requires
        strictly_increasing(c),
        c.len() > 0,
        1 <= j,
        x > c[c.len() - 1].temperature,
    ensures
        first_at_or_above(c, x, j) >= c.len(),
    decreases c.len() - j,
{
    if j < c.len() {
        if j < c.len() - 1 {
            assert(c[j].temperature < c[c.len() - 1].temperature);
        }
        lemma_first_past_all(c, x, j + 1);
    }
}

} // verus!
