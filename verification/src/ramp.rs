use vstd::prelude::*;

use crate::constants::{FAN_RAMP_STEP, MIN_FAN_SPEED};
use crate::num::{clamp, clamp_i64, in_i64, max, max_i64, min, min_i64};

verus! {

/// Next fan duty when moving from `cache` toward `target` with steps of at most
/// `max_step_up` / `max_step_down`, never below `min_speed` while running.
/// A fan at 0 starts directly at the target (at least `min_speed`); a target of 0 stops the fan.
pub open spec fn ramp(cache: int, target: int, max_step_up: int, max_step_down: int, min_speed: int) -> int {
    let ms = clamp(min_speed, 0, 100);
    let t = clamp(target, 0, 100);
    if cache == 0 {
        if t == 0 {
            0
        } else {
            max(t, ms)
        }
    } else if t > cache {
        clamp(t, cache, min(cache + max_step_up, 100))
    } else if t < cache {
        let low = if t == 0 {
            0
        } else {
            max(cache - max_step_down, ms)
        };
        clamp(t, low, cache)
    } else {
        cache
    }
}

/// The ramp stays within `i64` and every range it limits to is non-empty.
pub open spec fn ramp_defined(cache: int, target: int, max_step_up: int, max_step_down: int, min_speed: int) -> bool {
    let ms = clamp(min_speed, 0, 100);
    let t = clamp(target, 0, 100);
    cache != 0 ==> {
        &&& t > cache ==> in_i64(cache + max_step_up) && cache <= min(cache + max_step_up, 100)
        &&& t < cache && t != 0 ==> in_i64(cache - max_step_down) && max(cache - max_step_down, ms)
            <= cache
    }
}

/// One ramp step of the fan duty (see `ramp`).
pub fn ramp_speed_internal(
    cache: i64,
    target: i64,
    max_step_up: i64,
    max_step_down: i64,
    min_speed: i64,
) -> (r: i64)
    requires
        ramp_defined(cache as int, target as int, max_step_up as int, max_step_down as int, min_speed as int),
    ensures
        r == ramp(cache as int, target as int, max_step_up as int, max_step_down as int, min_speed as int),
        0 <= cache <= 100 ==> 0 <= r <= 100,
{
    let min_speed = clamp_i64(min_speed, 0, 100);
    let target = clamp_i64(target, 0, 100);

    if cache == 0 {
        if target == 0 {
            0
        } else {
            max_i64(target, min_speed)
        }
    } else if target > cache {
        let high = min_i64(cache + max_step_up, 100);
        clamp_i64(target, cache, high)
    } else if target < cache {
        let low = if target == 0 {
            0
        } else {
            max_i64(cache - max_step_down, min_speed)
        };
        clamp_i64(target, low, cache)
    } else {
        cache
    }
}

/// Whether `ramp_speed_internal` may be called on these arguments.
pub fn ramp_step_defined(
    cache: i64,
    target: i64,
    max_step_up: i64,
    max_step_down: i64,
    min_speed: i64,
) -> (b: bool)
    ensures
        b == ramp_defined(cache as int, target as int, max_step_up as int, max_step_down as int, min_speed as int),
{
    let ms = clamp_i64(min_speed, 0, 100);
    let t = clamp_i64(target, 0, 100);
    if cache == 0 {
        return true;
    }
    let up_ok = if t > cache {
        match cache.checked_add(max_step_up) {
            Some(high) => cache <= min_i64(high, 100),
            None => false,
        }
    } else {
        true
    };
    let down_ok = if t < cache && t != 0 {
        match cache.checked_sub(max_step_down) {
            Some(low) => max_i64(low, ms) <= cache,
            None => false,
        }
    } else {
        true
    };
    up_ok && down_ok
}

/// One ramp step with the default step size and minimum running speed.
pub fn ramp_speed(cache: i64, target: i64) -> (r: i64)
    requires
        ramp_defined(cache as int, target as int, FAN_RAMP_STEP as int, FAN_RAMP_STEP as int, MIN_FAN_SPEED as int),
    ensures
        r == ramp(cache as int, target as int, FAN_RAMP_STEP as int, FAN_RAMP_STEP as int, MIN_FAN_SPEED as int),
{
    ramp_speed_internal(cache, target, FAN_RAMP_STEP, FAN_RAMP_STEP, MIN_FAN_SPEED)
}

/// A ramp step never passes the (limited) target: moving up it stays at or below the target and
/// rises by at most `max_step_up`; moving down it stays at or above the target and falls by at
/// most `max_step_down` unless the target is 0 or the minimum speed holds it up; a stopped fan
/// starts at the target, raised to the minimum speed.
pub proof fn lemma_ramp_moves_toward_target(
    cache: int,
    target: int,
    max_step_up: int,
    max_step_down: int,
    min_speed: int,
)
    requires
        0 <= cache <= 100,
        max_step_up >= 0,
        max_step_down >= 0,
        ramp_defined(cache, target, max_step_up, max_step_down, min_speed),
    ensures
        ({
            let t = clamp(target, 0, 100);
            let ms = clamp(min_speed, 0, 100);
            let r = ramp(cache, target, max_step_up, max_step_down, min_speed);
            &&& 0 <= r <= 100
            &&& cache == 0 ==> r == (if t == 0 { 0 } else { max(t, ms) })
            &&& cache != 0 && t >= cache ==> cache <= r <= t && r - cache <= max_step_up
            &&& cache != 0 && t < cache ==> t <= r <= cache
            &&& cache != 0 && t < cache && t != 0 ==> r == max(t, max(cache - max_step_down, ms))
            &&& cache != 0 && t == 0 ==> r == 0
        }),
{
}

} // verus!
