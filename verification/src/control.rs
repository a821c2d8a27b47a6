use vstd::prelude::*;

use crate::constants::{
    FAN_RAMP_STEP, FAN_RAMP_STEP_DOWN, FAST_RAMP_UP, MAX_FAN_SPEED_PERCENT, MAX_TEMP_LIMIT, MIN_MONITOR_SAMPLE_INTERVAL_MS, MIN_TEMP_LIMIT, TEMP_EMERGENCY,
    TEMP_JUMP_THRESHOLD,
};
use crate::fan_curve::{curve_speed, curve_speed_fits, find_speed_for_temp};
use crate::mode_profiles::{
    cpu_cap_of, default_cpu_fan_max_for_mode, default_gpu_fan_max_for_mode,
    default_hysteresis_for_mode, default_ramp_step_for_mode, gpu_cap_of, hysteresis_of,
    ramp_step_of,
};
use crate::models::{FanControlMode, FanControlPolicy, FanData};
use crate::num::{
    clamp, clamp_i64, in_i64, max, max_i64, max_u32, max_u64, min, min_i64,
};
use crate::ramp::{ramp, ramp_defined, ramp_speed_internal};
use crate::text::{eq_ignore_ascii_case, str_eq, str_eq_ignore_ascii_case};

verus! {

/// The integer state the control loop carries from one step to the next.
#[derive(Clone, Copy, Debug)]
pub struct ControlState {
    /// Duty last written to the (left, right) fans; 0 means not yet taken over.
    pub fan_cache: [i64; 2],
    /// Mode in effect; in Office mode it may switch to Gaming and back.
    pub active_mode: FanControlMode,
    pub office_cooldown_ticks: u32,
    pub gaming_hot_ticks: u32,
    pub cpu_hysteresis_anchor_temp: i64,
    pub gpu_hysteresis_anchor_temp: i64,
    pub alert_cpu_high_count: u32,
    pub alert_gpu_high_count: u32,
    pub alert_cpu_recover_count: u32,
    pub alert_gpu_recover_count: u32,
    pub cpu_alert_active: bool,
    pub gpu_alert_active: bool,
    /// A forced-protection alert holds the fans at full speed.
    pub force_max_fan: bool,
}

impl ControlState {
    /// Fan duties written by the controller always lie in 0..=100.
    pub open spec fn wf(self) -> bool {
        &&& 0 <= self.fan_cache[0] <= 100
        &&& 0 <= self.fan_cache[1] <= 100
    }

    /// Fresh state: nothing written yet, no alerts, counters at zero.
    pub fn new(mode: FanControlMode) -> (s: Self)
        ensures
            s.wf(),
            s.fan_cache[0] == 0 && s.fan_cache[1] == 0,
            s.active_mode == mode,
            s.office_cooldown_ticks == 0 && s.gaming_hot_ticks == 0,
            s.cpu_hysteresis_anchor_temp == 0 && s.gpu_hysteresis_anchor_temp == 0,
            s.alert_cpu_high_count == 0 && s.alert_gpu_high_count == 0,
            s.alert_cpu_recover_count == 0 && s.alert_gpu_recover_count == 0,
            !s.cpu_alert_active && !s.gpu_alert_active && !s.force_max_fan,
    {
        ControlState {
            fan_cache: [0i64; 2],
            active_mode: mode,
            office_cooldown_ticks: 0,
            gaming_hot_ticks: 0,
            cpu_hysteresis_anchor_temp: 0,
            gpu_hysteresis_anchor_temp: 0,
            alert_cpu_high_count: 0,
            alert_gpu_high_count: 0,
            alert_cpu_recover_count: 0,
            alert_gpu_recover_count: 0,
            cpu_alert_active: false,
            gpu_alert_active: false,
            force_max_fan: false,
        }
    }
}

// ---------------------------------------------------------------------------------------------
// Settings in effect

/// Minimum running duty at `temp_now`: 0 while zero-RPM applies, else the configured minimum.
pub open spec fn min_speed_at(control: FanControlPolicy, temp_now: int) -> int {
    if control.zero_rpm_enabled && temp_now <= control.zero_rpm_threshold {
        0
    } else {
        clamp(control.min_speed as int, 0, 100)
    }
}

pub fn effective_min_speed(control: &FanControlPolicy, temp_now: i64) -> (r: i64)
    ensures
        r == min_speed_at(*control, temp_now as int),
        !(control.zero_rpm_enabled && temp_now <= control.zero_rpm_threshold) ==> r == (if control.min_speed < 0 {
            0
        } else if control.min_speed > 100 {
            100
        } else {
            control.min_speed
        }),
        control.zero_rpm_enabled && temp_now <= control.zero_rpm_threshold ==> r == 0,
{
    if control.zero_rpm_enabled && temp_now <= control.zero_rpm_threshold {
        0
    } else {
        clamp_i64(control.min_speed, 0, MAX_FAN_SPEED_PERCENT)
    }
}

/// The fans run at a constant speed when that is switched on or the control mode says "constant".
pub open spec fn constant_mode(control: FanControlPolicy) -> bool {
    control.constant_speed_enabled || eq_ignore_ascii_case(control.control_mode@, "constant"@)
}

pub fn is_constant_mode(control: &FanControlPolicy) -> (r: bool)
    ensures
        r == constant_mode(*control),
{
    control.constant_speed_enabled || str_eq_ignore_ascii_case(control.control_mode.as_str(), "constant")
}

pub fn constant_speed_target(control: &FanControlPolicy) -> (r: i64)
    ensures
        r == clamp(control.constant_speed as int, 0, 100),
{
    clamp_i64(control.constant_speed, 0, MAX_FAN_SPEED_PERCENT)
}

/// Cap of a fan in `mode`: the mode's cap when unset, else the setting limited to 20..=100
/// (Custom) or to 20..=the mode's cap.
pub open spec fn cap_in_mode(configured: int, mode_default: int, mode: FanControlMode) -> int {
    if configured <= 0 {
        mode_default
    } else if mode == FanControlMode::Custom {
        clamp(configured, 20, 100)
    } else {
        clamp(configured, 20, mode_default)
    }
}

pub fn effective_cpu_max_percent(fan_data: &FanData, active_mode: FanControlMode) -> (r: i64)
    ensures
        r == cap_in_mode(fan_data.control.cpu_fan_max_percent as int, cpu_cap_of(active_mode) as int, active_mode),
        0 <= r <= 100,
{
    let mode_default = default_cpu_fan_max_for_mode(&active_mode);
    let configured = fan_data.control.cpu_fan_max_percent;
    if configured <= 0 {
        mode_default
    } else if active_mode == FanControlMode::Custom {
        clamp_i64(configured, 20, MAX_FAN_SPEED_PERCENT)
    } else {
        clamp_i64(configured, 20, mode_default)
    }
}

pub fn effective_gpu_max_percent(fan_data: &FanData, active_mode: FanControlMode) -> (r: i64)
    ensures
        r == cap_in_mode(fan_data.control.gpu_fan_max_percent as int, gpu_cap_of(active_mode) as int, active_mode),
        0 <= r <= 100,
{
    let mode_default = default_gpu_fan_max_for_mode(&active_mode);
    let configured = fan_data.control.gpu_fan_max_percent;
    if configured <= 0 {
        mode_default
    } else if active_mode == FanControlMode::Custom {
        clamp_i64(configured, 20, MAX_FAN_SPEED_PERCENT)
    } else {
        clamp_i64(configured, 20, mode_default)
    }
}

/// Hysteresis band: the mode's when unset, else the setting limited to 1..=12.
pub open spec fn band_in_mode(configured: int, mode: FanControlMode) -> int {
    if configured <= 0 {
        hysteresis_of(mode) as int
    } else {
        clamp(configured, 1, 12)
    }
}

pub fn effective_cpu_hysteresis(fan_data: &FanData, active_mode: FanControlMode) -> (r: i64)
    ensures
        r == band_in_mode(fan_data.control.cpu_hysteresis_bandwidth as int, active_mode),
{
    let mode_default = default_hysteresis_for_mode(&active_mode);
    let configured = fan_data.control.cpu_hysteresis_bandwidth;
    if configured <= 0 {
        mode_default
    } else {
        clamp_i64(configured, 1, 12)
    }
}

pub fn effective_gpu_hysteresis(fan_data: &FanData, active_mode: FanControlMode) -> (r: i64)
    ensures
        r == band_in_mode(fan_data.control.gpu_hysteresis_bandwidth as int, active_mode),
{
    let mode_default = default_hysteresis_for_mode(&active_mode);
    let configured = fan_data.control.gpu_hysteresis_bandwidth;
    if configured <= 0 {
        mode_default
    } else {
        clamp_i64(configured, 1, 12)
    }
}

/// Dead band on the duty: the larger configured band (limited to 1..=12), at least the mode's
/// band capped at 6.
pub open spec fn speed_band(control: FanControlPolicy, mode: FanControlMode) -> int {
    max(
        clamp(max(control.cpu_hysteresis_bandwidth as int, control.gpu_hysteresis_bandwidth as int), 1, 12),
        min(hysteresis_of(mode) as int, 6),
    )
}

pub fn effective_speed_hysteresis(fan_data: &FanData, active_mode: FanControlMode) -> (r: i64)
    ensures
        r == speed_band(fan_data.control, active_mode),
        1 <= r <= 12,
{
    let configured = clamp_i64(
        max_i64(fan_data.control.cpu_hysteresis_bandwidth, fan_data.control.gpu_hysteresis_bandwidth),
        1,
        12,
    );
    max_i64(configured, min_i64(default_hysteresis_for_mode(&active_mode), 6))
}

// ---------------------------------------------------------------------------------------------
// Target shaping

/// Temperature hysteresis: the returned target and the new anchor temperature.
/// A rise (or a first reading) moves the anchor to the temperature; a fall within the band keeps
/// the duty from dropping; a larger fall moves the anchor down and lets the target through.
pub open spec fn hysteresis_step(temp_now: int, target: int, current_speed: int, anchor: int, bandwidth: int) -> (int, int) {
    if anchor == 0 {
        (target, temp_now)
    } else if temp_now >= anchor {
        (target, temp_now)
    } else if anchor - temp_now <= max(bandwidth, 1) {
        (max(target, current_speed), anchor)
    } else {
        (target, temp_now)
    }
}

pub open spec fn hysteresis_fits(temp_now: int, anchor: int) -> bool {
    anchor != 0 && temp_now < anchor ==> in_i64(anchor - temp_now)
}

pub fn apply_temperature_hysteresis(
    temp_now: i64,
    target: i64,
    current_speed: i64,
    anchor_temp: &mut i64,
    bandwidth: i64,
) -> (r: i64)
    requires
        hysteresis_fits(temp_now as int, *old(anchor_temp) as int),
    ensures
        (r as int, *final(anchor_temp) as int) == hysteresis_step(
            temp_now as int,
            target as int,
            current_speed as int,
            *old(anchor_temp) as int,
            bandwidth as int,
        ),
{
    if *anchor_temp == 0 {
        *anchor_temp = temp_now;
        return target;
    }

    if temp_now >= *anchor_temp {
        *anchor_temp = temp_now;
        return target;
    }

    if *anchor_temp - temp_now <= max_i64(bandwidth, 1) {
        return max_i64(target, current_speed);
    }

    *anchor_temp = temp_now;
    target
}

/// GPU linkage: once the GPU is at the threshold, the left target is raised by the boost
/// (limited to 0..=100) and the right target is at least the left one.
pub open spec fn linkage_step(control: FanControlPolicy, gpu_temp: int, left: int, right: int) -> (int, int) {
    if !control.gpu_linkage_enabled || gpu_temp < control.gpu_linkage_threshold {
        (left, right)
    } else {
        let l = max(left, clamp(left + control.gpu_linkage_boost, 0, 100));
        (l, max(right, l))
    }
}

pub open spec fn linkage_fits(control: FanControlPolicy, gpu_temp: int, left: int) -> bool {
    control.gpu_linkage_enabled && gpu_temp >= control.gpu_linkage_threshold ==> in_i64(
        left + control.gpu_linkage_boost,
    )
}

pub fn apply_gpu_linkage(
    control: &FanControlPolicy,
    gpu_temp: i64,
    left_target: &mut i64,
    right_target: &mut i64,
)
    requires
        linkage_fits(*control, gpu_temp as int, *old(left_target) as int),
    ensures
        (*final(left_target) as int, *final(right_target) as int) == linkage_step(
            *control,
            gpu_temp as int,
            *old(left_target) as int,
            *old(right_target) as int,
        ),
        !control.gpu_linkage_enabled || gpu_temp < control.gpu_linkage_threshold ==> *final(left_target)
            == *old(left_target) && *final(right_target) == *old(right_target),
        ({
            let b = *old(left_target) + control.gpu_linkage_boost;
            let boosted = if b < 0 { 0 } else if b > 100 { 100 } else { b };
            control.gpu_linkage_enabled && gpu_temp >= control.gpu_linkage_threshold ==> {
                &&& *final(left_target) == (if boosted > *old(left_target) { boosted } else { *old(left_target) as int })
                &&& *final(right_target) == (if *final(left_target) > *old(right_target) {
                    *final(left_target)
                } else {
                    *old(right_target)
                })
            }
        }),
{
    if !control.gpu_linkage_enabled {
        return;
    }
    if gpu_temp < control.gpu_linkage_threshold {
        return;
    }

    let boosted_cpu = clamp_i64(*left_target + control.gpu_linkage_boost, 0, MAX_FAN_SPEED_PERCENT);
    *left_target = max_i64(*left_target, boosted_cpu);
    *right_target = max_i64(*right_target, *left_target);
}

/// Strategy: "mix_max" drives both fans at the larger target, "cpu_only" follows the left
/// target, "gpu_only" the right one; anything else leaves the targets apart.
pub open spec fn strategy_step(control: FanControlPolicy, left: int, right: int) -> (int, int) {
    if control.strategy@ == "mix_max"@ {
        (max(left, right), max(left, right))
    } else if control.strategy@ == "cpu_only"@ {
        (left, left)
    } else if control.strategy@ == "gpu_only"@ {
        (right, right)
    } else {
        (left, right)
    }
}

pub fn apply_strategy(
    control: &FanControlPolicy,
    cpu_temp: i64,
    gpu_temp: i64,
    left_target: &mut i64,
    right_target: &mut i64,
)
    ensures
        (*final(left_target) as int, *final(right_target) as int) == strategy_step(
            *control,
            *old(left_target) as int,
            *old(right_target) as int,
        ),
{
    let strategy = control.strategy.as_str();
    if str_eq(strategy, "mix_max") {
        let linked = max_i64(*left_target, *right_target);
        *left_target = linked;
        *right_target = linked;
    } else if str_eq(strategy, "cpu_only") {
        *right_target = *left_target;
    } else if str_eq(strategy, "gpu_only") {
        *left_target = *right_target;
    }
}

// ---------------------------------------------------------------------------------------------
// Dynamic mode and alerts

pub open spec fn saturating_inc(x: u32) -> u32 {
    if x < u32::MAX {
        (x + 1) as u32
    } else {
        x
    }
}

fn saturating_inc_u32(x: u32) -> (r: u32)
    ensures
        r == saturating_inc(x),
{
    if x < u32::MAX {
        x + 1
    } else {
        x
    }
}

/// Consecutive hot samples after which Office mode switches to Gaming: 3 s worth of samples.
pub open spec fn gaming_ticks_needed(sample_interval_ms: int) -> int {
    let ms = max(sample_interval_ms, 500);
    max((3000 + ms - 1) / ms, 1)
}

/// Consecutive cool samples after which the mode returns to Office: 180 s worth of samples.
pub open spec fn office_ticks_needed(sample_interval_ms: int) -> int {
    let ms = max(sample_interval_ms, 500);
    max((180000 + ms - 1) / ms, 1)
}

/// State after one sample of the automatic mode switch, and whether the active mode switched.
/// Outside Office mode the configured mode is simply in effect.
pub open spec fn dynamic_mode_step(fan_data: FanData, s: ControlState, cpu_temp: int, gpu_temp: int) -> (ControlState, bool) {
    if fan_data.control.mode != FanControlMode::Office {
        (ControlState { active_mode: fan_data.control.mode, office_cooldown_ticks: 0, gaming_hot_ticks: 0, ..s }, false)
    } else {
        let (gaming, office) = if gpu_temp >= fan_data.control.gpu_linkage_threshold {
            (saturating_inc(s.gaming_hot_ticks), 0u32)
        } else if cpu_temp < 40 {
            (0u32, saturating_inc(s.office_cooldown_ticks))
        } else {
            (0u32, 0u32)
        };
        let next = if gaming >= gaming_ticks_needed(fan_data.monitor.sample_interval_ms as int) {
            FanControlMode::Gaming
        } else if office >= office_ticks_needed(fan_data.monitor.sample_interval_ms as int) {
            FanControlMode::Office
        } else {
            s.active_mode
        };
        (ControlState { active_mode: next, office_cooldown_ticks: office, gaming_hot_ticks: gaming, ..s }, next != s.active_mode)
    }
}

fn ticks_needed(seconds_in_ms: u64, sample_interval_ms: u64) -> (r: u32)
    requires
        seconds_in_ms == 3000 || seconds_in_ms == 180000,
    ensures
        r == max((seconds_in_ms + max(sample_interval_ms as int, 500) - 1) / max(sample_interval_ms as int, 500), 1),
{
    let ms = max_u64(sample_interval_ms, 500);
    let n = seconds_in_ms / ms + if seconds_in_ms % ms == 0 { 0 } else { 1 };
    proof {
        let a: int = seconds_in_ms as int;
        let m: int = ms as int;
        let q: int = a / m;
        let r: int = a % m;
        vstd::arithmetic::div_mod::lemma_fundamental_div_mod(a, m);
        assert(0 <= r < m);
        if r == 0 {
            assert(a + m - 1 == q * m + (m - 1));
            vstd::arithmetic::div_mod::lemma_fundamental_div_mod_converse(a + m - 1, m, q, m - 1);
        } else {
            assert(a + m - 1 == (q + 1) * m + (r - 1)) by (nonlinear_arith)
                requires
                    a == m * q + r,
            ;
            vstd::arithmetic::div_mod::lemma_fundamental_div_mod_converse(a + m - 1, m, q + 1, r - 1);
        }
    }
    max_u32(n as u32, 1)
}

/// Office mode follows the load: enough consecutive hot GPU samples switch to Gaming, enough
/// consecutive cool CPU samples switch back. Returns whether the active mode switched.
pub fn update_dynamic_mode(fan_data: &FanData, state: &mut ControlState, cpu_temp: i64, gpu_temp: i64) -> (switched: bool)
    ensures
        (*final(state), switched) == dynamic_mode_step(*fan_data, *old(state), cpu_temp as int, gpu_temp as int),
{
    if fan_data.control.mode != FanControlMode::Office {
        state.active_mode = fan_data.control.mode;
        state.office_cooldown_ticks = 0;
        state.gaming_hot_ticks = 0;
        return false;
    }

    let gaming_required_ticks = ticks_needed(3000, fan_data.monitor.sample_interval_ms);
    let office_required_ticks = ticks_needed(180000, fan_data.monitor.sample_interval_ms);

    if gpu_temp >= fan_data.control.gpu_linkage_threshold {
        state.gaming_hot_ticks = saturating_inc_u32(state.gaming_hot_ticks);
        state.office_cooldown_ticks = 0;
    } else if cpu_temp < 40 {
        state.office_cooldown_ticks = saturating_inc_u32(state.office_cooldown_ticks);
        state.gaming_hot_ticks = 0;
    } else {
        state.gaming_hot_ticks = 0;
        state.office_cooldown_ticks = 0;
    }

    let next_mode = if state.gaming_hot_ticks >= max_u32(gaming_required_ticks, 1) {
        FanControlMode::Gaming
    } else if state.office_cooldown_ticks >= max_u32(office_required_ticks, 1) {
        FanControlMode::Office
    } else {
        state.active_mode
    };

    if next_mode != state.active_mode {
        state.active_mode = next_mode;
        return true;
    }
    false
}

/// What the alert logic decided on one sample.
#[derive(Clone, Copy, PartialEq, Eq, Structural, Debug)]
pub struct AlertEvents {
    /// The CPU alert was raised now: its actions are due.
    pub cpu_raised: bool,
    /// The GPU alert was raised now: its actions are due.
    pub gpu_raised: bool,
    /// The CPU alert cleared now.
    pub cpu_recovered: bool,
    /// The GPU alert cleared now.
    pub gpu_recovered: bool,
}

/// One sample of one sensor's alert: (high count, recover count, active, raised, cleared).
/// A reading at or above the threshold counts toward raising; while active, a reading at least
/// `recover` below the threshold counts toward clearing; any other reading resets both counts.
pub open spec fn sensor_alert_step(temp: int, threshold: int, confirm: int, recover: int, high: u32, rec: u32, active: bool) -> (u32, u32, bool, bool, bool) {
    let (h, r) = if temp >= threshold {
        (saturating_inc(high), 0u32)
    } else if active && temp <= threshold - recover {
        (0u32, saturating_inc(rec))
    } else {
        (0u32, 0u32)
    };
    let raised = !active && h >= confirm;
    let a1 = active || raised;
    let cleared = a1 && r >= confirm;
    (h, r, a1 && !cleared, raised, cleared)
}

pub open spec fn sensor_alert_fits(temp: int, threshold: int, recover: int, active: bool) -> bool {
    temp < threshold && active ==> in_i64(threshold - recover)
}

/// Alerts of both sensors on one sample; the state after it and what was decided.
pub open spec fn alert_step(fan_data: FanData, s: ControlState, cpu_temp: int, gpu_temp: int) -> (ControlState, AlertEvents) {
    let a = fan_data.alerts;
    let recover = max(a.recover_delta as int, 1);
    let c = sensor_alert_step(cpu_temp, a.cpu.threshold as int, max(a.cpu.actions.confirm_times as int, 1), recover,
        s.alert_cpu_high_count, s.alert_cpu_recover_count, s.cpu_alert_active);
    let g = sensor_alert_step(gpu_temp, a.gpu.threshold as int, max(a.gpu.actions.confirm_times as int, 1), recover,
        s.alert_gpu_high_count, s.alert_gpu_recover_count, s.gpu_alert_active);
    (ControlState {
        alert_cpu_high_count: c.0,
        alert_cpu_recover_count: c.1,
        cpu_alert_active: c.2,
        alert_gpu_high_count: g.0,
        alert_gpu_recover_count: g.1,
        gpu_alert_active: g.2,
        force_max_fan: (c.2 && a.cpu.actions.force_shutdown) || (g.2 && a.gpu.actions.force_shutdown),
        ..s
    }, AlertEvents { cpu_raised: c.3, gpu_raised: g.3, cpu_recovered: c.4, gpu_recovered: g.4 })
}

pub open spec fn alerts_fit(fan_data: FanData, s: ControlState, cpu_temp: int, gpu_temp: int) -> bool {
    let recover = max(fan_data.alerts.recover_delta as int, 1);
    &&& sensor_alert_fits(cpu_temp, fan_data.alerts.cpu.threshold as int, recover, s.cpu_alert_active)
    &&& sensor_alert_fits(gpu_temp, fan_data.alerts.gpu.threshold as int, recover, s.gpu_alert_active)
}

fn sensor_alert(temp: i64, threshold: i64, confirm: u32, recover: i64, high: u32, rec: u32, active: bool) -> (r: (u32, u32, bool, bool, bool))
    requires
        recover >= 1,
        sensor_alert_fits(temp as int, threshold as int, recover as int, active),
    ensures
        r == sensor_alert_step(temp as int, threshold as int, confirm as int, recover as int, high, rec, active),
{
    let mut high = high;
    let mut rec = rec;
    let mut active = active;
    if temp >= threshold {
        high = saturating_inc_u32(high);
        rec = 0;
    } else if active && temp <= threshold - recover {
        rec = saturating_inc_u32(rec);
        high = 0;
    } else {
        high = 0;
        rec = 0;
    }
    let mut raised = false;
    if !active && high >= confirm {
        active = true;
        raised = true;
    }
    let mut cleared = false;
    if active && rec >= confirm {
        active = false;
        cleared = true;
    }
    (high, rec, active, raised, cleared)
}

/// Counts hot and recovered samples per sensor, raises an alert after `confirm_times` hot
/// samples and clears it after as many samples `recover_delta` below the threshold; a raised
/// alert with forced protection holds the fans at full speed.
pub fn process_alerts(fan_data: &FanData, state: &mut ControlState, cpu_temp: i64, gpu_temp: i64) -> (events: AlertEvents)
    requires
        alerts_fit(*fan_data, *old(state), cpu_temp as int, gpu_temp as int),
    ensures
        (*final(state), events) == alert_step(*fan_data, *old(state), cpu_temp as int, gpu_temp as int),
        ({
            let t = fan_data.alerts.cpu.threshold as int;
            let d: int = if fan_data.alerts.recover_delta < 1 { 1 } else { fan_data.alerts.recover_delta as int };
            let k: int = if fan_data.alerts.cpu.actions.confirm_times < 1 { 1 } else { fan_data.alerts.cpu.actions.confirm_times as int };
            let h0 = old(state).alert_cpu_high_count as int;
            let r0 = old(state).alert_cpu_recover_count as int;
            let a0 = old(state).cpu_alert_active;
            let h1 = final(state).alert_cpu_high_count as int;
            let r1 = final(state).alert_cpu_recover_count as int;
            &&& cpu_temp >= t ==> h1 == (if h0 < u32::MAX { h0 + 1 } else { h0 }) && r1 == 0
            &&& cpu_temp < t && a0 && cpu_temp <= t - d ==> h1 == 0 && r1 == (if r0 < u32::MAX { r0 + 1 } else { r0 })
            &&& cpu_temp < t && !(a0 && cpu_temp <= t - d) ==> h1 == 0 && r1 == 0
            &&& events.cpu_raised == (!a0 && h1 >= k)
            &&& events.cpu_recovered == ((a0 || events.cpu_raised) && r1 >= k)
            &&& final(state).cpu_alert_active == ((a0 || events.cpu_raised) && !events.cpu_recovered)
        }),
        ({
            let t = fan_data.alerts.gpu.threshold as int;
            let d: int = if fan_data.alerts.recover_delta < 1 { 1 } else { fan_data.alerts.recover_delta as int };
            let k: int = if fan_data.alerts.gpu.actions.confirm_times < 1 { 1 } else { fan_data.alerts.gpu.actions.confirm_times as int };
            let h0 = old(state).alert_gpu_high_count as int;
            let r0 = old(state).alert_gpu_recover_count as int;
            let a0 = old(state).gpu_alert_active;
            let h1 = final(state).alert_gpu_high_count as int;
            let r1 = final(state).alert_gpu_recover_count as int;
            &&& gpu_temp >= t ==> h1 == (if h0 < u32::MAX { h0 + 1 } else { h0 }) && r1 == 0
            &&& gpu_temp < t && a0 && gpu_temp <= t - d ==> h1 == 0 && r1 == (if r0 < u32::MAX { r0 + 1 } else { r0 })
            &&& gpu_temp < t && !(a0 && gpu_temp <= t - d) ==> h1 == 0 && r1 == 0
            &&& events.gpu_raised == (!a0 && h1 >= k)
            &&& events.gpu_recovered == ((a0 || events.gpu_raised) && r1 >= k)
            &&& final(state).gpu_alert_active == ((a0 || events.gpu_raised) && !events.gpu_recovered)
        }),
        final(state).force_max_fan == ((final(state).cpu_alert_active && fan_data.alerts.cpu.actions.force_shutdown)
            || (final(state).gpu_alert_active && fan_data.alerts.gpu.actions.force_shutdown)),
{
    let cpu_threshold = fan_data.alerts.cpu.threshold;
    let gpu_threshold = fan_data.alerts.gpu.threshold;
    let cpu_confirm = max_u32(fan_data.alerts.cpu.actions.confirm_times, 1);
    let gpu_confirm = max_u32(fan_data.alerts.gpu.actions.confirm_times, 1);
    let recover_delta = max_i64(fan_data.alerts.recover_delta, 1);

    let c = sensor_alert(cpu_temp, cpu_threshold, cpu_confirm, recover_delta,
        state.alert_cpu_high_count, state.alert_cpu_recover_count, state.cpu_alert_active);
    let g = sensor_alert(gpu_temp, gpu_threshold, gpu_confirm, recover_delta,
        state.alert_gpu_high_count, state.alert_gpu_recover_count, state.gpu_alert_active);

    state.alert_cpu_high_count = c.0;
    state.alert_cpu_recover_count = c.1;
    state.cpu_alert_active = c.2;
    state.alert_gpu_high_count = g.0;
    state.alert_gpu_recover_count = g.1;
    state.gpu_alert_active = g.2;

    state.force_max_fan = (state.cpu_alert_active && fan_data.alerts.cpu.actions.force_shutdown)
        || (state.gpu_alert_active && fan_data.alerts.gpu.actions.force_shutdown);

    AlertEvents { cpu_raised: c.3, gpu_raised: g.3, cpu_recovered: c.4, gpu_recovered: g.4 }
}

// ---------------------------------------------------------------------------------------------
// One control step

/// Whether the readings are plausible; implausible ones skip the step.
pub fn readings_valid(cpu_temp: i64, gpu_temp: i64) -> (b: bool)
    ensures
        b == (MIN_TEMP_LIMIT <= cpu_temp <= MAX_TEMP_LIMIT && MIN_TEMP_LIMIT <= gpu_temp <= MAX_TEMP_LIMIT),
{
    !(cpu_temp < MIN_TEMP_LIMIT || cpu_temp > MAX_TEMP_LIMIT || gpu_temp < MIN_TEMP_LIMIT || gpu_temp > MAX_TEMP_LIMIT)
}

/// Pause between control steps: the sampling interval, at least the shortest one.
pub fn control_sleep_ms(fan_data: &FanData) -> (r: u64)
    ensures
        r == max(fan_data.monitor.sample_interval_ms as int, MIN_MONITOR_SAMPLE_INTERVAL_MS as int),
{
    max_u64(fan_data.monitor.sample_interval_ms, MIN_MONITOR_SAMPLE_INTERVAL_MS)
}

/// What the first part of a control step decided.
#[derive(Clone, Copy, PartialEq, Eq, Structural, Debug)]
pub enum ControlPlan {
    /// A temperature is above the emergency limit: both fans at full speed; `write` when they
    /// were not at full speed already.
    Emergency { write: bool },
    /// The left (`left`) or right curve has no point; nothing is written.
    MissingCurve { left: bool },
    /// Constant-speed control: both fans at `target`; `write` when they were not there already.
    ConstantSpeed { target: i64, write: bool },
    /// The fans were not under control: write the targets at once.
    TakeOver { left: i64, right: i64 },
    /// Targets to be smoothed and ramped toward.
    Smooth { left: i64, right: i64 },
}

/// Targets from the curves at the smoothed temperatures, after the strategy and the GPU linkage.
pub open spec fn linked_targets(fan_data: FanData, cpu_use: int, gpu_use: int) -> (int, int) {
    let l0 = curve_speed(fan_data.left_fan@, cpu_use);
    let r0 = curve_speed(fan_data.right_fan@, gpu_use);
    let s = strategy_step(fan_data.control, l0, r0);
    linkage_step(fan_data.control, gpu_use, s.0, s.1)
}

/// Targets limited by the caps of the active mode.
pub open spec fn capped_targets(fan_data: FanData, mode: FanControlMode, cpu_use: int, gpu_use: int) -> (int, int) {
    let t = linked_targets(fan_data, cpu_use, gpu_use);
    (
        clamp(t.0, 0, cap_in_mode(fan_data.control.cpu_fan_max_percent as int, cpu_cap_of(mode) as int, mode)),
        clamp(t.1, 0, cap_in_mode(fan_data.control.gpu_fan_max_percent as int, gpu_cap_of(mode) as int, mode)),
    )
}

/// First part of a control step: the plan, the duties recorded as written (left, right), and
/// the new hysteresis anchors (CPU, GPU). `fan_auto` tells that the firmware took the fans back,
/// which forgets what was written.
pub open spec fn control_plan(
    fan_data: FanData,
    s: ControlState,
    cpu_out: int,
    gpu_out: int,
    cpu_use: int,
    gpu_use: int,
    fan_auto: bool,
) -> (ControlPlan, int, int, int, int) {
    let c0l: int = if fan_auto { 0 } else { s.fan_cache[0] as int };
    let c0r: int = if fan_auto { 0 } else { s.fan_cache[1] as int };
    let al = s.cpu_hysteresis_anchor_temp as int;
    let ar = s.gpu_hysteresis_anchor_temp as int;
    if cpu_out > TEMP_EMERGENCY || gpu_out > TEMP_EMERGENCY {
        (ControlPlan::Emergency { write: !(c0l == 100 && c0r == 100) }, 100, 100, al, ar)
    } else {
        let full = c0l == 100 && c0r == 100;
        let c1l: int = if full { 0 } else { c0l };
        let c1r: int = if full { 0 } else { c0r };
        if fan_data.left_fan@.len() == 0 {
            (ControlPlan::MissingCurve { left: true }, c1l, c1r, al, ar)
        } else if fan_data.right_fan@.len() == 0 {
            (ControlPlan::MissingCurve { left: false }, c1l, c1r, al, ar)
        } else if constant_mode(fan_data.control) {
            let t = clamp(fan_data.control.constant_speed as int, 0, 100);
            (ControlPlan::ConstantSpeed { target: t as i64, write: !(c1l == t && c1r == t) }, t, t, al, ar)
        } else {
            let mode = s.active_mode;
            let caps = capped_targets(fan_data, mode, cpu_use, gpu_use);
            let hl = hysteresis_step(cpu_use, caps.0, c1l, al, band_in_mode(fan_data.control.cpu_hysteresis_bandwidth as int, mode));
            let hr = hysteresis_step(gpu_use, caps.1, c1r, ar, band_in_mode(fan_data.control.gpu_hysteresis_bandwidth as int, mode));
            let tl: int = if s.force_max_fan { 100 } else { hl.0 };
            let tr: int = if s.force_max_fan { 100 } else { hr.0 };
            if c1l == 0 && c1r == 0 {
                (ControlPlan::TakeOver { left: tl as i64, right: tr as i64 }, tl, tr, hl.1, hr.1)
            } else {
                (ControlPlan::Smooth { left: tl as i64, right: tr as i64 }, c1l, c1r, hl.1, hr.1)
            }
        }
    }
}

/// The first part of a control step stays within `i64`.
pub open spec fn control_plan_defined(
    fan_data: FanData,
    s: ControlState,
    cpu_out: int,
    gpu_out: int,
    cpu_use: int,
    gpu_use: int,
) -> bool {
    let l0 = curve_speed(fan_data.left_fan@, cpu_use);
    let r0 = curve_speed(fan_data.right_fan@, gpu_use);
    !(cpu_out > TEMP_EMERGENCY || gpu_out > TEMP_EMERGENCY) && fan_data.left_fan@.len() > 0
        && fan_data.right_fan@.len() > 0 && !constant_mode(fan_data.control) ==> {
        &&& curve_speed_fits(fan_data.left_fan@, cpu_use)
        &&& curve_speed_fits(fan_data.right_fan@, gpu_use)
        &&& linkage_fits(fan_data.control, gpu_use, strategy_step(fan_data.control, l0, r0).0)
        &&& hysteresis_fits(cpu_use, s.cpu_hysteresis_anchor_temp as int)
        &&& hysteresis_fits(gpu_use, s.gpu_hysteresis_anchor_temp as int)
    }
}

/// First part of a control step, after the readings were found plausible and the mode and
/// alerts updated: full speed above the emergency limit, constant speed when configured,
/// otherwise the curve targets shaped by strategy, linkage, caps, hysteresis and forced
/// protection. `cpu_use` and `gpu_use` are the smoothed temperatures, `fan_auto` tells that the
/// firmware took the fans back.
pub fn plan_control_step(
    fan_data: &FanData,
    state: &mut ControlState,
    cpu_out: i64,
    gpu_out: i64,
    cpu_use: i64,
    gpu_use: i64,
    fan_auto: bool,
) -> (plan: ControlPlan)
    requires
        control_plan_defined(*fan_data, *old(state), cpu_out as int, gpu_out as int, cpu_use as int, gpu_use as int),
    ensures
        ({
            let p = control_plan(*fan_data, *old(state), cpu_out as int, gpu_out as int, cpu_use as int, gpu_use as int, fan_auto);
            &&& plan == p.0
            &&& final(state).fan_cache[0] == p.1
            &&& final(state).fan_cache[1] == p.2
            &&& final(state).cpu_hysteresis_anchor_temp == p.3
            &&& final(state).gpu_hysteresis_anchor_temp == p.4
        }),
        final(state).active_mode == old(state).active_mode,
        final(state).office_cooldown_ticks == old(state).office_cooldown_ticks,
        final(state).gaming_hot_ticks == old(state).gaming_hot_ticks,
        final(state).alert_cpu_high_count == old(state).alert_cpu_high_count,
        final(state).alert_gpu_high_count == old(state).alert_gpu_high_count,
        final(state).alert_cpu_recover_count == old(state).alert_cpu_recover_count,
        final(state).alert_gpu_recover_count == old(state).alert_gpu_recover_count,
        final(state).cpu_alert_active == old(state).cpu_alert_active,
        final(state).gpu_alert_active == old(state).gpu_alert_active,
        final(state).force_max_fan == old(state).force_max_fan,
        old(state).wf() ==> final(state).wf(),
        !(cpu_out > TEMP_EMERGENCY || gpu_out > TEMP_EMERGENCY) && fan_data.left_fan@.len() > 0
            && fan_data.right_fan@.len() > 0 && !fan_data.control.constant_speed_enabled
            && !eq_ignore_ascii_case(fan_data.control.control_mode@, "constant"@) && old(state).force_max_fan ==> (
        plan == ControlPlan::Smooth { left: 100, right: 100 } || plan == ControlPlan::TakeOver { left: 100, right: 100 }),
{
    if fan_auto {
        state.fan_cache = [0, 0];
    }

    if cpu_out > TEMP_EMERGENCY || gpu_out > TEMP_EMERGENCY {
        let write = !(state.fan_cache[0] == 100 && state.fan_cache[1] == 100);
        state.fan_cache = [100, 100];
        return ControlPlan::Emergency { write };
    }

    if state.fan_cache[0] == 100 && state.fan_cache[1] == 100 {
        state.fan_cache = [0, 0];
    }

    if fan_data.left_fan.len() == 0 {
        return ControlPlan::MissingCurve { left: true };
    }
    if fan_data.right_fan.len() == 0 {
        return ControlPlan::MissingCurve { left: false };
    }

    if is_constant_mode(&fan_data.control) {
        let target = constant_speed_target(&fan_data.control);
        let write = !(state.fan_cache[0] == target && state.fan_cache[1] == target);
        state.fan_cache = [target, target];
        return ControlPlan::ConstantSpeed { target, write };
    }

    let mut target_left = match find_speed_for_temp(fan_data.left_fan.as_slice(), cpu_use, "左") {
        Some(s) => clamp_i64(s, 0, MAX_FAN_SPEED_PERCENT),
        None => 0,
    };
    let mut target_right = match find_speed_for_temp(fan_data.right_fan.as_slice(), gpu_use, "右") {
        Some(s) => clamp_i64(s, 0, MAX_FAN_SPEED_PERCENT),
        None => 0,
    };

    apply_strategy(&fan_data.control, cpu_use, gpu_use, &mut target_left, &mut target_right);
    apply_gpu_linkage(&fan_data.control, gpu_use, &mut target_left, &mut target_right);

    let cpu_cap = effective_cpu_max_percent(fan_data, state.active_mode);
    let gpu_cap = effective_gpu_max_percent(fan_data, state.active_mode);
    target_left = clamp_i64(target_left, 0, cpu_cap);
    target_right = clamp_i64(target_right, 0, gpu_cap);

    let cpu_band = effective_cpu_hysteresis(fan_data, state.active_mode);
    let gpu_band = effective_gpu_hysteresis(fan_data, state.active_mode);
    let mut cpu_anchor = state.cpu_hysteresis_anchor_temp;
    let mut gpu_anchor = state.gpu_hysteresis_anchor_temp;
    target_left = apply_temperature_hysteresis(cpu_use, target_left, state.fan_cache[0], &mut cpu_anchor, cpu_band);
    target_right = apply_temperature_hysteresis(gpu_use, target_right, state.fan_cache[1], &mut gpu_anchor, gpu_band);
    state.cpu_hysteresis_anchor_temp = cpu_anchor;
    state.gpu_hysteresis_anchor_temp = gpu_anchor;

    if state.force_max_fan {
        target_left = MAX_FAN_SPEED_PERCENT;
        target_right = MAX_FAN_SPEED_PERCENT;
    }

    if state.fan_cache[0] == 0 && state.fan_cache[1] == 0 {
        state.fan_cache = [target_left, target_right];
        return ControlPlan::TakeOver { left: target_left, right: target_right };
    }

    ControlPlan::Smooth { left: target_left, right: target_right }
}

/// What the second part of a control step decided.
#[derive(Clone, Copy, PartialEq, Eq, Structural, Debug)]
pub enum RampPlan {
    /// Both smoothed targets lie within the dead band of the written duties: keep them.
    WithinBand,
    /// The ramp leaves both duties where they are.
    Unchanged,
    /// Write these duties.
    Write { left: i64, right: i64 },
}

pub open spec fn abs(x: int) -> int {
    if x < 0 {
        -x
    } else {
        x
    }
}

/// Step limits (up, down) of the ramp: the configured steps, at least the mode's step and 1;
/// a quick temperature jump allows the fast step up; forced protection lifts the limits.
pub open spec fn ramp_limits(fan_data: FanData, s: ControlState, cpu_out: int, gpu_out: int, ema_cpu_prev: int, ema_gpu_prev: int) -> (int, int) {
    let mode_step = ramp_step_of(s.active_mode) as int;
    let up0 = max(max(fan_data.control.ramp_up_step as int, mode_step), 1);
    let down0 = max(max(fan_data.control.ramp_down_step as int, mode_step), 1);
    let jump = cpu_out - ema_cpu_prev >= TEMP_JUMP_THRESHOLD || gpu_out - ema_gpu_prev >= TEMP_JUMP_THRESHOLD;
    let up1 = if jump { FAST_RAMP_UP as int } else { up0 };
    if s.force_max_fan {
        (max(FAST_RAMP_UP as int, up1), 100)
    } else {
        (up1, down0)
    }
}

/// Second part of a control step: the plan and the duties recorded as written (left, right).
/// `target_left` / `target_right` are the smoothed targets; `ema_cpu_prev` / `ema_gpu_prev` the
/// smoothed temperatures before this step.
pub open spec fn ramp_plan(
    fan_data: FanData,
    s: ControlState,
    cpu_out: int,
    gpu_out: int,
    cpu_use: int,
    gpu_use: int,
    target_left: int,
    target_right: int,
    ema_cpu_prev: int,
    ema_gpu_prev: int,
) -> (RampPlan, int, int) {
    let band = speed_band(fan_data.control, s.active_mode);
    let c0 = s.fan_cache[0] as int;
    let c1 = s.fan_cache[1] as int;
    if abs(c0 - target_left) <= band && abs(c1 - target_right) <= band {
        (RampPlan::WithinBand, c0, c1)
    } else {
        let lim = ramp_limits(fan_data, s, cpu_out, gpu_out, ema_cpu_prev, ema_gpu_prev);
        let rl = ramp(c0, target_left, lim.0, lim.1, min_speed_at(fan_data.control, cpu_use));
        let rr = ramp(c1, target_right, lim.0, lim.1, min_speed_at(fan_data.control, gpu_use));
        if rl == c0 && rr == c1 {
            (RampPlan::Unchanged, c0, c1)
        } else {
            (RampPlan::Write { left: rl as i64, right: rr as i64 }, rl, rr)
        }
    }
}

/// The second part of a control step stays within `i64` and every range it limits to is
/// non-empty.
pub open spec fn ramp_plan_defined(
    fan_data: FanData,
    s: ControlState,
    cpu_out: int,
    gpu_out: int,
    cpu_use: int,
    gpu_use: int,
    target_left: int,
    target_right: int,
    ema_cpu_prev: int,
    ema_gpu_prev: int,
) -> bool {
    let band = speed_band(fan_data.control, s.active_mode);
    let c0 = s.fan_cache[0] as int;
    let c1 = s.fan_cache[1] as int;
    &&& in_i64(c0 - target_left) && c0 - target_left != i64::MIN
    &&& abs(c0 - target_left) <= band ==> in_i64(c1 - target_right) && c1 - target_right != i64::MIN
    &&& !(abs(c0 - target_left) <= band && abs(c1 - target_right) <= band) ==> {
        let lim = ramp_limits(fan_data, s, cpu_out, gpu_out, ema_cpu_prev, ema_gpu_prev);
        &&& in_i64(cpu_out - ema_cpu_prev)
        &&& cpu_out - ema_cpu_prev < TEMP_JUMP_THRESHOLD ==> in_i64(gpu_out - ema_gpu_prev)
        &&& ramp_defined(c0, target_left, lim.0, lim.1, min_speed_at(fan_data.control, cpu_use))
        &&& ramp_defined(c1, target_right, lim.0, lim.1, min_speed_at(fan_data.control, gpu_use))
    }
}

fn abs_i64(x: i64) -> (r: i64)
    requires
        x != i64::MIN,
    ensures
        r == abs(x as int),
{
    if x < 0 {
        -x
    } else {
        x
    }
}

/// Second part of a control step, after the smoothed targets were formed: keep the duties
/// when both targets lie in the dead band; otherwise ramp each fan toward its target and
/// write when a duty changes.
pub fn plan_ramp_step(
    fan_data: &FanData,
    state: &mut ControlState,
    cpu_out: i64,
    gpu_out: i64,
    cpu_use: i64,
    gpu_use: i64,
    target_left: i64,
    target_right: i64,
    ema_cpu_prev: i64,
    ema_gpu_prev: i64,
) -> (plan: RampPlan)
    requires
        ramp_plan_defined(*fan_data, *old(state), cpu_out as int, gpu_out as int, cpu_use as int, gpu_use as int,
            target_left as int, target_right as int, ema_cpu_prev as int, ema_gpu_prev as int),
    ensures
        ({
            let p = ramp_plan(*fan_data, *old(state), cpu_out as int, gpu_out as int, cpu_use as int, gpu_use as int,
                target_left as int, target_right as int, ema_cpu_prev as int, ema_gpu_prev as int);
            &&& plan == p.0
            &&& final(state).fan_cache[0] == p.1
            &&& final(state).fan_cache[1] == p.2
        }),
        final(state).active_mode == old(state).active_mode,
        final(state).office_cooldown_ticks == old(state).office_cooldown_ticks,
        final(state).gaming_hot_ticks == old(state).gaming_hot_ticks,
        final(state).cpu_hysteresis_anchor_temp == old(state).cpu_hysteresis_anchor_temp,
        final(state).gpu_hysteresis_anchor_temp == old(state).gpu_hysteresis_anchor_temp,
        final(state).alert_cpu_high_count == old(state).alert_cpu_high_count,
        final(state).alert_gpu_high_count == old(state).alert_gpu_high_count,
        final(state).alert_cpu_recover_count == old(state).alert_cpu_recover_count,
        final(state).alert_gpu_recover_count == old(state).alert_gpu_recover_count,
        final(state).cpu_alert_active == old(state).cpu_alert_active,
        final(state).gpu_alert_active == old(state).gpu_alert_active,
        final(state).force_max_fan == old(state).force_max_fan,
        old(state).wf() ==> final(state).wf(),
{
    let speed_hysteresis = effective_speed_hysteresis(fan_data, state.active_mode);

    if abs_i64(state.fan_cache[0] - target_left) <= speed_hysteresis
        && abs_i64(state.fan_cache[1] - target_right) <= speed_hysteresis {
        return RampPlan::WithinBand;
    }

    let mode_step = default_ramp_step_for_mode(&state.active_mode);
    let mut max_up = max_i64(max_i64(fan_data.control.ramp_up_step, mode_step), 1);
    let mut max_down = max_i64(max_i64(fan_data.control.ramp_down_step, mode_step), 1);

    if max_up <= 0 {
        max_up = FAN_RAMP_STEP;
    }
    if max_down <= 0 {
        max_down = FAN_RAMP_STEP_DOWN;
    }

    if cpu_out - ema_cpu_prev >= TEMP_JUMP_THRESHOLD || gpu_out - ema_gpu_prev >= TEMP_JUMP_THRESHOLD {
        max_up = FAST_RAMP_UP;
    }

    if state.force_max_fan {
        max_up = max_i64(FAST_RAMP_UP, max_up);
        max_down = 100;
    }

    let ramp_left = ramp_speed_internal(
        state.fan_cache[0],
        target_left,
        max_up,
        max_down,
        effective_min_speed(&fan_data.control, cpu_use),
    );
    let ramp_right = ramp_speed_internal(
        state.fan_cache[1],
        target_right,
        max_up,
        max_down,
        effective_min_speed(&fan_data.control, gpu_use),
    );

    if state.fan_cache[0] == ramp_left && state.fan_cache[1] == ramp_right {
        return RampPlan::Unchanged;
    }

    state.fan_cache = [ramp_left, ramp_right];
    RampPlan::Write { left: ramp_left, right: ramp_right }
}

// ---------------------------------------------------------------------------------------------
// Checks of the preconditions, for callers outside verified code

/// Whether `process_alerts` may be called on these arguments.
pub fn alerts_fit_check(fan_data: &FanData, state: &ControlState, cpu_temp: i64, gpu_temp: i64) -> (b: bool)
    ensures
        b == alerts_fit(*fan_data, *state, cpu_temp as int, gpu_temp as int),
{
    let recover = max_i64(fan_data.alerts.recover_delta, 1);
    let cpu_ok = !(cpu_temp < fan_data.alerts.cpu.threshold && state.cpu_alert_active)
        || fan_data.alerts.cpu.threshold.checked_sub(recover).is_some();
    let gpu_ok = !(gpu_temp < fan_data.alerts.gpu.threshold && state.gpu_alert_active)
        || fan_data.alerts.gpu.threshold.checked_sub(recover).is_some();
    cpu_ok && gpu_ok
}

/// Whether `plan_control_step` may be called on these arguments.
pub fn control_plan_defined_check(
    fan_data: &FanData,
    state: &ControlState,
    cpu_out: i64,
    gpu_out: i64,
    cpu_use: i64,
    gpu_use: i64,
) -> (b: bool)
    ensures
        b == control_plan_defined(*fan_data, *state, cpu_out as int, gpu_out as int, cpu_use as int, gpu_use as int),
{
    if cpu_out > TEMP_EMERGENCY || gpu_out > TEMP_EMERGENCY || fan_data.left_fan.len() == 0
        || fan_data.right_fan.len() == 0 || is_constant_mode(&fan_data.control) {
        return true;
    }
    if !crate::fan_curve::curve_speed_fits_check(fan_data.left_fan.as_slice(), cpu_use)
        || !crate::fan_curve::curve_speed_fits_check(fan_data.right_fan.as_slice(), gpu_use) {
        return false;
    }
    let mut left = match find_speed_for_temp(fan_data.left_fan.as_slice(), cpu_use, "") {
        Some(s) => s,
        None => 0,
    };
    let mut right = match find_speed_for_temp(fan_data.right_fan.as_slice(), gpu_use, "") {
        Some(s) => s,
        None => 0,
    };
    apply_strategy(&fan_data.control, cpu_use, gpu_use, &mut left, &mut right);
    let linkage_ok = !(fan_data.control.gpu_linkage_enabled && gpu_use >= fan_data.control.gpu_linkage_threshold)
        || left.checked_add(fan_data.control.gpu_linkage_boost).is_some();
    let cpu_anchor = state.cpu_hysteresis_anchor_temp;
    let gpu_anchor = state.gpu_hysteresis_anchor_temp;
    let cpu_ok = !(cpu_anchor != 0 && cpu_use < cpu_anchor) || cpu_anchor.checked_sub(cpu_use).is_some();
    let gpu_ok = !(gpu_anchor != 0 && gpu_use < gpu_anchor) || gpu_anchor.checked_sub(gpu_use).is_some();
    linkage_ok && cpu_ok && gpu_ok
}

/// Whether `plan_ramp_step` may be called on these arguments.
pub fn ramp_plan_defined_check(
    fan_data: &FanData,
    state: &ControlState,
    cpu_out: i64,
    gpu_out: i64,
    cpu_use: i64,
    gpu_use: i64,
    target_left: i64,
    target_right: i64,
    ema_cpu_prev: i64,
    ema_gpu_prev: i64,
) -> (b: bool)
    ensures
        b == ramp_plan_defined(*fan_data, *state, cpu_out as int, gpu_out as int, cpu_use as int, gpu_use as int,
            target_left as int, target_right as int, ema_cpu_prev as int, ema_gpu_prev as int),
{
    let band = effective_speed_hysteresis(fan_data, state.active_mode);
    let d0 = match state.fan_cache[0].checked_sub(target_left) {
        Some(d) => d,
        None => return false,
    };
    if d0 == i64::MIN {
        return false;
    }
    let near_left = abs_i64(d0) <= band;
    let mut near_right = false;
    if near_left {
        let d1 = match state.fan_cache[1].checked_sub(target_right) {
            Some(d) => d,
            None => return false,
        };
        if d1 == i64::MIN {
            return false;
        }
        near_right = abs_i64(d1) <= band;
    }
    if near_left && near_right {
        return true;
    }
    let jump_cpu = match cpu_out.checked_sub(ema_cpu_prev) {
        Some(d) => d,
        None => return false,
    };
    let mut jump = jump_cpu >= TEMP_JUMP_THRESHOLD;
    if !jump {
        let jump_gpu = match gpu_out.checked_sub(ema_gpu_prev) {
            Some(d) => d,
            None => return false,
        };
        jump = jump_gpu >= TEMP_JUMP_THRESHOLD;
    }
    let mode_step = default_ramp_step_for_mode(&state.active_mode);
    let mut max_up = max_i64(max_i64(fan_data.control.ramp_up_step, mode_step), 1);
    let mut max_down = max_i64(max_i64(fan_data.control.ramp_down_step, mode_step), 1);
    if jump {
        max_up = FAST_RAMP_UP;
    }
    if state.force_max_fan {
        max_up = max_i64(FAST_RAMP_UP, max_up);
        max_down = 100;
    }
    crate::ramp::ramp_step_defined(state.fan_cache[0], target_left, max_up, max_down,
        effective_min_speed(&fan_data.control, cpu_use))
        && crate::ramp::ramp_step_defined(state.fan_cache[1], target_right, max_up, max_down,
        effective_min_speed(&fan_data.control, gpu_use))
}

// ---------------------------------------------------------------------------------------------
// Laws of the controller

/// An alert is raised only by a reading at or above its threshold once the count of consecutive
/// such readings reaches the confirmation count; it clears only on a reading at least the
/// recovery delta below the threshold once as many such readings were seen; any other reading
/// restarts both counts; forced protection is on exactly while an alert with that action is active.
pub proof fn lemma_alert_confirmation(fan_data: FanData, s: ControlState, cpu_temp: int, gpu_temp: int)
    ensures
        ({
            let (s2, ev) = alert_step(fan_data, s, cpu_temp, gpu_temp);
            let a = fan_data.alerts;
            let recover = max(a.recover_delta as int, 1);
            &&& ev.cpu_raised ==> !s.cpu_alert_active && cpu_temp >= a.cpu.threshold
                && s2.alert_cpu_high_count >= max(a.cpu.actions.confirm_times as int, 1) && s2.cpu_alert_active
            &&& ev.cpu_recovered ==> s.cpu_alert_active && cpu_temp <= a.cpu.threshold - recover
                && s2.alert_cpu_recover_count >= max(a.cpu.actions.confirm_times as int, 1) && !s2.cpu_alert_active
            &&& ev.gpu_raised ==> !s.gpu_alert_active && gpu_temp >= a.gpu.threshold
                && s2.alert_gpu_high_count >= max(a.gpu.actions.confirm_times as int, 1) && s2.gpu_alert_active
            &&& ev.gpu_recovered ==> s.gpu_alert_active && gpu_temp <= a.gpu.threshold - recover
                && s2.alert_gpu_recover_count >= max(a.gpu.actions.confirm_times as int, 1) && !s2.gpu_alert_active
            &&& cpu_temp >= a.cpu.threshold ==> s2.alert_cpu_high_count == saturating_inc(s.alert_cpu_high_count)
            &&& cpu_temp < a.cpu.threshold ==> s2.alert_cpu_high_count == 0
            &&& s2.cpu_alert_active != s.cpu_alert_active ==> ev.cpu_raised || ev.cpu_recovered
            &&& s2.gpu_alert_active != s.gpu_alert_active ==> ev.gpu_raised || ev.gpu_recovered
            &&& s2.force_max_fan == ((s2.cpu_alert_active && a.cpu.actions.force_shutdown)
                || (s2.gpu_alert_active && a.gpu.actions.force_shutdown))
            &&& s2.fan_cache == s.fan_cache
        }),
{
}

/// While the temperature falls no more than the band below the anchor, the target is never
/// below the duty in effect; otherwise the target passes through unchanged.
pub proof fn lemma_hysteresis_holds_speed(temp_now: int, target: int, current_speed: int, anchor: int, bandwidth: int)
    ensures
        ({
            let (t, a2) = hysteresis_step(temp_now, target, current_speed, anchor, bandwidth);
            &&& anchor != 0 && temp_now < anchor && anchor - temp_now <= max(bandwidth, 1) ==> t == max(target, current_speed) && a2 == anchor
            &&& !(anchor != 0 && temp_now < anchor && anchor - temp_now <= max(bandwidth, 1)) ==> t == target && a2 == temp_now
        }),
{
}

/// Once the GPU linkage applies, the left target does not drop and the right target is at least
/// the left one; mix_max drives both fans alike.
pub proof fn lemma_linkage_and_strategy(control: FanControlPolicy, gpu_temp: int, left: int, right: int)
    ensures
        ({
            let (l, r) = linkage_step(control, gpu_temp, left, right);
            control.gpu_linkage_enabled && gpu_temp >= control.gpu_linkage_threshold ==> l >= left && r >= l && r >= right
        }),
        control.strategy@ == "mix_max"@ ==> strategy_step(control, left, right).0 == strategy_step(control, left, right).1,
{
}

/// Above the emergency temperature the plan is full speed on both fans, written only if they
/// were not already there.
pub proof fn lemma_emergency_full_speed(
    fan_data: FanData,
    s: ControlState,
    cpu_out: int,
    gpu_out: int,
    cpu_use: int,
    gpu_use: int,
    fan_auto: bool,
)
    requires
        cpu_out > TEMP_EMERGENCY || gpu_out > TEMP_EMERGENCY,
    ensures
        ({
            let p = control_plan(fan_data, s, cpu_out, gpu_out, cpu_use, gpu_use, fan_auto);
            &&& p.0 is Emergency
            &&& p.1 == 100 && p.2 == 100
            &&& (p.0 == ControlPlan::Emergency { write: false }) <==> (!fan_auto && s.fan_cache[0] == 100 && s.fan_cache[1] == 100)
        }),
{
}

/// Outside Office mode the configured mode is in effect; in Office mode the controller only
/// moves to Gaming after enough consecutive hot GPU samples and back to Office after enough
/// consecutive cool CPU samples.
pub proof fn lemma_dynamic_mode(fan_data: FanData, s: ControlState, cpu_temp: int, gpu_temp: int)
    ensures
        ({
            let (s2, switched) = dynamic_mode_step(fan_data, s, cpu_temp, gpu_temp);
            let ms = fan_data.monitor.sample_interval_ms as int;
            &&& fan_data.control.mode != FanControlMode::Office ==> s2.active_mode == fan_data.control.mode && !switched
            &&& fan_data.control.mode == FanControlMode::Office && s2.active_mode == FanControlMode::Gaming
                && s.active_mode != FanControlMode::Gaming ==> gpu_temp >= fan_data.control.gpu_linkage_threshold
                && s2.gaming_hot_ticks >= gaming_ticks_needed(ms)
            &&& fan_data.control.mode == FanControlMode::Office && switched && s2.active_mode == FanControlMode::Office
                ==> cpu_temp < 40 && s2.office_cooldown_ticks >= office_ticks_needed(ms)
            &&& s2.fan_cache == s.fan_cache
        }),
{
}

/// One sensor's alert (high count, recover count, active) after the readings `temps`, starting
/// from `start`.
pub open spec fn sensor_run(temps: Seq<int>, threshold: int, confirm: int, recover: int, start: (u32, u32, bool)) -> (u32, u32, bool)
    decreases temps.len(),
{
    if temps.len() == 0 {
        start
    } else {
        let p = sensor_run(temps.drop_last(), threshold, confirm, recover, start);
        let s = sensor_alert_step(temps.last(), threshold, confirm, recover, p.0, p.1, p.2);
        (s.0, s.1, s.2)
    }
}

/// The step taken on the last reading of `temps`: (raised, cleared).
pub open spec fn sensor_run_last_events(temps: Seq<int>, threshold: int, confirm: int, recover: int, start: (u32, u32, bool)) -> (bool, bool)
    recommends
        temps.len() > 0,
{
    let p = sensor_run(temps.drop_last(), threshold, confirm, recover, start);
    let s = sensor_alert_step(temps.last(), threshold, confirm, recover, p.0, p.1, p.2);
    (s.3, s.4)
}

/// Starting from an inactive alert with no hot readings counted, a run of `n` readings at or
/// above the threshold keeps the alert off after readings 1..k-1, raises it at the k-th reading
/// (`k` the confirmation count) and only there, and keeps it raised after that.
pub proof fn lemma_alert_raise_run(temps: Seq<int>, threshold: int, confirm: int, recover: int, start: (u32, u32, bool))
    requires
        confirm >= 1,
        temps.len() < u32::MAX,
        start.0 == 0,
        !start.2,
        forall|i: int| 0 <= i < temps.len() ==> #[trigger] temps[i] >= threshold,
    ensures
        sensor_run(temps, threshold, confirm, recover, start).0 == temps.len(),
        temps.len() > 0 ==> sensor_run(temps, threshold, confirm, recover, start).1 == 0,
        sensor_run(temps, threshold, confirm, recover, start).2 == (temps.len() >= confirm),
        temps.len() > 0 ==> sensor_run_last_events(temps, threshold, confirm, recover, start) == (
        temps.len() == confirm, false),
    decreases temps.len(),
{
    if temps.len() > 0 {
        let prefix = temps.drop_last();
        assert forall|i: int| 0 <= i < prefix.len() implies #[trigger] prefix[i] >= threshold by {
            assert(prefix[i] == temps[i]);
        }
        lemma_alert_raise_run(prefix, threshold, confirm, recover, start);
        assert(temps.last() == temps[temps.len() - 1]);
    }
}

/// Starting from an active alert with no recovered readings counted, a run of `n` readings at
/// least the recovery delta below the threshold keeps the alert on after readings 1..k-1,
/// clears it at the k-th reading and only there, and keeps it off after that.
pub proof fn lemma_alert_clear_run(temps: Seq<int>, threshold: int, confirm: int, recover: int, start: (u32, u32, bool))
    requires
        confirm >= 1,
        recover >= 1,
        temps.len() < u32::MAX,
        start.1 == 0,
        start.2,
        forall|i: int| 0 <= i < temps.len() ==> #[trigger] temps[i] <= threshold - recover,
    ensures
        temps.len() > 0 ==> sensor_run(temps, threshold, confirm, recover, start).0 == 0,
        sensor_run(temps, threshold, confirm, recover, start).1 == (if temps.len() <= confirm { temps.len() as int } else { 0 }),
        sensor_run(temps, threshold, confirm, recover, start).2 == (temps.len() < confirm),
        temps.len() > 0 ==> sensor_run_last_events(temps, threshold, confirm, recover, start) == (
        false, temps.len() == confirm),
    decreases temps.len(),
{
    if temps.len() > 0 {
        let prefix = temps.drop_last();
        assert forall|i: int| 0 <= i < prefix.len() implies #[trigger] prefix[i] <= threshold - recover by {
            assert(prefix[i] == temps[i]);
        }
        lemma_alert_clear_run(prefix, threshold, confirm, recover, start);
        assert(temps.last() == temps[temps.len() - 1]);
    }
}

/// A reading strictly between the recovery level and the threshold resets both counts, keeps the
/// alert as it was and neither raises nor clears it.
pub proof fn lemma_alert_between_resets(temp: int, threshold: int, confirm: int, recover: int, high: u32, rec: u32, active: bool)
    requires
        confirm >= 1,
        threshold - recover < temp < threshold,
    ensures
        sensor_alert_step(temp, threshold, confirm, recover, high, rec, active) == (0u32, 0u32, active, false, false),
{
}

/// A `process_alerts` call with the CPU reading strictly between the recovery level and the
/// threshold resets both CPU counts and keeps the CPU alert as it was, with no CPU event.
pub proof fn lemma_cpu_alert_between(fan_data: FanData, s: ControlState, cpu_temp: int, gpu_temp: int)
    requires
        fan_data.alerts.cpu.threshold - max(fan_data.alerts.recover_delta as int, 1) < cpu_temp < fan_data.alerts.cpu.threshold,
    ensures
        ({
            let (s2, ev) = alert_step(fan_data, s, cpu_temp, gpu_temp);
            &&& s2.alert_cpu_high_count == 0 && s2.alert_cpu_recover_count == 0
            &&& s2.cpu_alert_active == s.cpu_alert_active
            &&& !ev.cpu_raised && !ev.cpu_recovered
        }),
{
}

/// State after a run of `process_alerts` calls on the (CPU, GPU) readings `samples`, all with
/// the same configuration.
pub open spec fn alert_run(fan_data: FanData, s: ControlState, samples: Seq<(int, int)>) -> ControlState
    decreases samples.len(),
{
    if samples.len() == 0 {
        s
    } else {
        alert_step(fan_data, alert_run(fan_data, s, samples.drop_last()), samples.last().0, samples.last().1).0
    }
}

pub open spec fn cpu_alert_of(s: ControlState) -> (u32, u32, bool) {
    (s.alert_cpu_high_count, s.alert_cpu_recover_count, s.cpu_alert_active)
}

pub open spec fn cpu_temps(samples: Seq<(int, int)>) -> Seq<int> {
    samples.map_values(|x: (int, int)| x.0)
}

/// Over a run of `process_alerts` calls the CPU alert evolves on the CPU readings alone.
pub proof fn lemma_alert_run_cpu(fan_data: FanData, s: ControlState, samples: Seq<(int, int)>)
    ensures
        cpu_alert_of(alert_run(fan_data, s, samples)) == sensor_run(
            cpu_temps(samples),
            fan_data.alerts.cpu.threshold as int,
            max(fan_data.alerts.cpu.actions.confirm_times as int, 1),
            max(fan_data.alerts.recover_delta as int, 1),
            cpu_alert_of(s),
        ),
        samples.len() > 0 ==> alert_step(fan_data, alert_run(fan_data, s, samples.drop_last()), samples.last().0,
            samples.last().1).1.cpu_raised == sensor_run_last_events(
            cpu_temps(samples),
            fan_data.alerts.cpu.threshold as int,
            max(fan_data.alerts.cpu.actions.confirm_times as int, 1),
            max(fan_data.alerts.recover_delta as int, 1),
            cpu_alert_of(s),
        ).0,
        samples.len() > 0 ==> alert_step(fan_data, alert_run(fan_data, s, samples.drop_last()), samples.last().0,
            samples.last().1).1.cpu_recovered == sensor_run_last_events(
            cpu_temps(samples),
            fan_data.alerts.cpu.threshold as int,
            max(fan_data.alerts.cpu.actions.confirm_times as int, 1),
            max(fan_data.alerts.recover_delta as int, 1),
            cpu_alert_of(s),
        ).1,
    decreases samples.len(),
{
    if samples.len() > 0 {
        let prefix = samples.drop_last();
        lemma_alert_run_cpu(fan_data, s, prefix);
        assert(cpu_temps(samples).drop_last() =~= cpu_temps(prefix));
        assert(cpu_temps(samples).last() == samples.last().0);
    }
}

/// The alert law over runs of `process_alerts` calls with one configuration, for the CPU (the
/// GPU alert obeys the same law on the GPU readings). With `k` the confirmation count (at least
/// 1), `t` the threshold and `d` the recovery delta (at least 1): from an inactive alert with no
/// hot reading counted, readings at or above `t` leave the alert off after calls 1..k-1 and raise
/// it at call k, its actions being due at that call and no other; from an active alert with no
/// recovered reading counted, readings at or below `t - d` leave it on after calls 1..k-1 and
/// clear it at call k and only there.
pub proof fn lemma_cpu_alert_runs(fan_data: FanData, s: ControlState, samples: Seq<(int, int)>)
    requires
        samples.len() < u32::MAX,
    ensures
        ({
            let t = fan_data.alerts.cpu.threshold as int;
            let k = max(fan_data.alerts.cpu.actions.confirm_times as int, 1);
            let d = max(fan_data.alerts.recover_delta as int, 1);
            let n = samples.len();
            let last = alert_step(fan_data, alert_run(fan_data, s, samples.drop_last()), samples.last().0, samples.last().1);
            &&& (!s.cpu_alert_active && s.alert_cpu_high_count == 0
                && forall|i: int| 0 <= i < n ==> #[trigger] samples[i].0 >= t) ==> {
                &&& alert_run(fan_data, s, samples).cpu_alert_active == (n >= k)
                &&& n > 0 ==> (last.1.cpu_raised <==> n == k)
            }
            &&& (s.cpu_alert_active && s.alert_cpu_recover_count == 0
                && forall|i: int| 0 <= i < n ==> #[trigger] samples[i].0 <= t - d) ==> {
                &&& alert_run(fan_data, s, samples).cpu_alert_active == (n < k)
                &&& n > 0 ==> (last.1.cpu_recovered <==> n == k)
            }
        }),
{
    let t = fan_data.alerts.cpu.threshold as int;
    let k = max(fan_data.alerts.cpu.actions.confirm_times as int, 1);
    let d = max(fan_data.alerts.recover_delta as int, 1);
    let n = samples.len();
    let temps = cpu_temps(samples);
    lemma_alert_run_cpu(fan_data, s, samples);
    if !s.cpu_alert_active && s.alert_cpu_high_count == 0 && forall|i: int| 0 <= i < n ==> #[trigger] samples[i].0 >= t {
        assert forall|i: int| 0 <= i < temps.len() implies #[trigger] temps[i] >= t by {
            assert(temps[i] == samples[i].0);
        }
        lemma_alert_raise_run(temps, t, k, d, cpu_alert_of(s));
    }
    if s.cpu_alert_active && s.alert_cpu_recover_count == 0 && forall|i: int| 0 <= i < n ==> #[trigger] samples[i].0 <= t - d {
        assert forall|i: int| 0 <= i < temps.len() implies #[trigger] temps[i] <= t - d by {
            assert(temps[i] == samples[i].0);
        }
        lemma_alert_clear_run(temps, t, k, d, cpu_alert_of(s));
    }
}

/// Office-mode state (hot ticks, cool ticks, mode) after the samples `samples` of
/// (CPU, GPU) temperature, starting from `mode` with both counts at zero.
pub open spec fn office_after(samples: Seq<(int, int)>, threshold: int, sample_interval_ms: int, mode: FanControlMode) -> (u32, u32, FanControlMode)
    decreases samples.len(),
{
    if samples.len() == 0 {
        (0u32, 0u32, mode)
    } else {
        let p = office_after(samples.drop_last(), threshold, sample_interval_ms, mode);
        let (cpu, gpu) = samples.last();
        let (gaming, office) = if gpu >= threshold {
            (saturating_inc(p.0), 0u32)
        } else if cpu < 40 {
            (0u32, saturating_inc(p.1))
        } else {
            (0u32, 0u32)
        };
        let next = if gaming >= gaming_ticks_needed(sample_interval_ms) {
            FanControlMode::Gaming
        } else if office >= office_ticks_needed(sample_interval_ms) {
            FanControlMode::Office
        } else {
            p.2
        };
        (gaming, office, next)
    }
}

/// The Office-mode run agrees with `update_dynamic_mode` one sample at a time.
pub proof fn lemma_office_after_step(fan_data: FanData, s: ControlState, samples: Seq<(int, int)>, mode: FanControlMode)
    requires
        fan_data.control.mode == FanControlMode::Office,
        samples.len() > 0,
        ({
            let p = office_after(samples.drop_last(), fan_data.control.gpu_linkage_threshold as int,
                fan_data.monitor.sample_interval_ms as int, mode);
            s.gaming_hot_ticks == p.0 && s.office_cooldown_ticks == p.1 && s.active_mode == p.2
        }),
    ensures
        ({
            let p = office_after(samples, fan_data.control.gpu_linkage_threshold as int,
                fan_data.monitor.sample_interval_ms as int, mode);
            let s2 = dynamic_mode_step(fan_data, s, samples.last().0, samples.last().1).0;
            s2.gaming_hot_ticks == p.0 && s2.office_cooldown_ticks == p.1 && s2.active_mode == p.2
        }),
{
}

/// In Office mode, a run of samples with the GPU at the linkage threshold switches to Gaming
/// exactly at the sample that completes 3 s worth of them.
pub proof fn lemma_office_hot_run(samples: Seq<(int, int)>, threshold: int, sample_interval_ms: int)
    requires
        samples.len() < u32::MAX,
        forall|i: int| 0 <= i < samples.len() ==> #[trigger] samples[i].1 >= threshold,
    ensures
        office_after(samples, threshold, sample_interval_ms, FanControlMode::Office).0 == samples.len(),
        office_after(samples, threshold, sample_interval_ms, FanControlMode::Office).2 == (if samples.len()
            >= gaming_ticks_needed(sample_interval_ms) {
            FanControlMode::Gaming
        } else {
            FanControlMode::Office
        }),
    decreases samples.len(),
{
    if samples.len() > 0 {
        let prefix = samples.drop_last();
        assert forall|i: int| 0 <= i < prefix.len() implies #[trigger] prefix[i].1 >= threshold by {
            assert(prefix[i] == samples[i]);
        }
        lemma_office_hot_run(prefix, threshold, sample_interval_ms);
        assert(samples.last() == samples[samples.len() - 1]);
    }
}

pub open spec fn gpu_alert_of(s: ControlState) -> (u32, u32, bool) {
    (s.alert_gpu_high_count, s.alert_gpu_recover_count, s.gpu_alert_active)
}

pub open spec fn gpu_temps(samples: Seq<(int, int)>) -> Seq<int> {
    samples.map_values(|x: (int, int)| x.1)
}

/// Over a run of `process_alerts` calls the GPU alert evolves on the GPU readings alone.
pub proof fn lemma_alert_run_gpu(fan_data: FanData, s: ControlState, samples: Seq<(int, int)>)
    ensures
        gpu_alert_of(alert_run(fan_data, s, samples)) == sensor_run(
            gpu_temps(samples),
            fan_data.alerts.gpu.threshold as int,
            max(fan_data.alerts.gpu.actions.confirm_times as int, 1),
            max(fan_data.alerts.recover_delta as int, 1),
            gpu_alert_of(s),
        ),
        samples.len() > 0 ==> alert_step(fan_data, alert_run(fan_data, s, samples.drop_last()), samples.last().0,
            samples.last().1).1.gpu_raised == sensor_run_last_events(
            gpu_temps(samples),
            fan_data.alerts.gpu.threshold as int,
            max(fan_data.alerts.gpu.actions.confirm_times as int, 1),
            max(fan_data.alerts.recover_delta as int, 1),
            gpu_alert_of(s),
        ).0,
        samples.len() > 0 ==> alert_step(fan_data, alert_run(fan_data, s, samples.drop_last()), samples.last().0,
            samples.last().1).1.gpu_recovered == sensor_run_last_events(
            gpu_temps(samples),
            fan_data.alerts.gpu.threshold as int,
            max(fan_data.alerts.gpu.actions.confirm_times as int, 1),
            max(fan_data.alerts.recover_delta as int, 1),
            gpu_alert_of(s),
        ).1,
    decreases samples.len(),
{
    if samples.len() > 0 {
        let prefix = samples.drop_last();
        lemma_alert_run_gpu(fan_data, s, prefix);
        assert(gpu_temps(samples).drop_last() =~= gpu_temps(prefix));
        assert(gpu_temps(samples).last() == samples.last().1);
    }
}

/// The alert law over runs of `process_alerts` calls with one configuration, for the GPU. With
/// `k` the GPU confirmation count (at least 1), `t` the GPU threshold and `d` the recovery delta
/// (at least 1): every GPU reading at or above `t` moves the GPU high count one up (saturating);
/// from an inactive GPU alert with no hot reading counted, readings at or above `t` count
/// 1, 2, .., leave the alert off after calls 1..k-1 and raise it at call k and no other; from an
/// active GPU alert with no recovered reading counted, readings at or below `t - d` leave it on
/// after calls 1..k-1 and clear it at call k and only there.
pub proof fn lemma_gpu_alert_runs(fan_data: FanData, s: ControlState, samples: Seq<(int, int)>)
    requires
        samples.len() < u32::MAX,
    ensures
        ({
            let t = fan_data.alerts.gpu.threshold as int;
            let k = if fan_data.alerts.gpu.actions.confirm_times < 1 { 1 } else { fan_data.alerts.gpu.actions.confirm_times as int };
            let d = if fan_data.alerts.recover_delta < 1 { 1 } else { fan_data.alerts.recover_delta as int };
            let n = samples.len();
            let before = alert_run(fan_data, s, samples.drop_last());
            let last = alert_step(fan_data, before, samples.last().0, samples.last().1);
            &&& n > 0 && samples.last().1 >= t ==> last.0.alert_gpu_high_count == (if before.alert_gpu_high_count
                < u32::MAX { before.alert_gpu_high_count + 1 } else { before.alert_gpu_high_count as int })
            &&& (!s.gpu_alert_active && s.alert_gpu_high_count == 0
                && forall|i: int| 0 <= i < n ==> #[trigger] samples[i].1 >= t) ==> {
                &&& alert_run(fan_data, s, samples).alert_gpu_high_count == n
                &&& alert_run(fan_data, s, samples).gpu_alert_active == (n >= k)
                &&& n > 0 ==> (last.1.gpu_raised <==> n == k)
            }
            &&& (s.gpu_alert_active && s.alert_gpu_recover_count == 0
                && forall|i: int| 0 <= i < n ==> #[trigger] samples[i].1 <= t - d) ==> {
                &&& alert_run(fan_data, s, samples).gpu_alert_active == (n < k)
                &&& n > 0 ==> (last.1.gpu_recovered <==> n == k)
            }
        }),
{
    let t = fan_data.alerts.gpu.threshold as int;
    let k = max(fan_data.alerts.gpu.actions.confirm_times as int, 1);
    let d = max(fan_data.alerts.recover_delta as int, 1);
    let n = samples.len();
    let temps = gpu_temps(samples);
    lemma_alert_run_gpu(fan_data, s, samples);
    if !s.gpu_alert_active && s.alert_gpu_high_count == 0 && forall|i: int| 0 <= i < n ==> #[trigger] samples[i].1 >= t {
        assert forall|i: int| 0 <= i < temps.len() implies #[trigger] temps[i] >= t by {
            assert(temps[i] == samples[i].1);
        }
        lemma_alert_raise_run(temps, t, k, d, gpu_alert_of(s));
    }
    if s.gpu_alert_active && s.alert_gpu_recover_count == 0 && forall|i: int| 0 <= i < n ==> #[trigger] samples[i].1 <= t - d {
        assert forall|i: int| 0 <= i < temps.len() implies #[trigger] temps[i] <= t - d by {
            assert(temps[i] == samples[i].1);
        }
        lemma_alert_clear_run(temps, t, k, d, gpu_alert_of(s));
    }
}

/// Outside an emergency, a missing curve and constant-speed control, forced protection plans
/// full speed on both fans, whatever the curves, caps and hysteresis give.
pub proof fn lemma_forced_protection_full_speed(
    fan_data: FanData,
    s: ControlState,
    cpu_out: int,
    gpu_out: int,
    cpu_use: int,
    gpu_use: int,
    fan_auto: bool,
)
    requires
        !(cpu_out > TEMP_EMERGENCY || gpu_out > TEMP_EMERGENCY),
        fan_data.left_fan@.len() > 0,
        fan_data.right_fan@.len() > 0,
        !fan_data.control.constant_speed_enabled,
        !eq_ignore_ascii_case(fan_data.control.control_mode@, "constant"@),
        s.force_max_fan,
    ensures
        ({
            let p = control_plan(fan_data, s, cpu_out, gpu_out, cpu_use, gpu_use, fan_auto);
            &&& p.0 == ControlPlan::Smooth { left: 100, right: 100 } || p.0 == ControlPlan::TakeOver { left: 100, right: 100 }
            &&& p.0 is TakeOver ==> p.1 == 100 && p.2 == 100
        }),
{
}

/// The minimum running duty: with zero-RPM off it is the configured minimum limited to 0..=100
/// at every temperature; it is 0 exactly when zero-RPM is on and the temperature is at or below
/// its threshold, or the configured minimum is at most 0.
pub proof fn lemma_min_speed_zero_rpm(control: FanControlPolicy, temp_now: int)
    ensures
        !control.zero_rpm_enabled ==> min_speed_at(control, temp_now) == (if control.min_speed < 0 {
            0
        } else if control.min_speed > 100 {
            100
        } else {
            control.min_speed as int
        }),
        (min_speed_at(control, temp_now) == 0) == ((control.zero_rpm_enabled && temp_now <= control.zero_rpm_threshold)
            || control.min_speed <= 0),
{
}

/// With the GPU linkage switched off, or the GPU below its threshold, both targets stay as they
/// are; otherwise the left target becomes the larger of itself and itself plus the boost
/// (limited to 0..=100), and the right target the larger of itself and the new left one.
pub proof fn lemma_linkage_switch(control: FanControlPolicy, gpu_temp: int, left: int, right: int)
    ensures
        !control.gpu_linkage_enabled ==> linkage_step(control, gpu_temp, left, right) == (left, right),
        gpu_temp < control.gpu_linkage_threshold ==> linkage_step(control, gpu_temp, left, right) == (left, right),
        ({
            let b = left + control.gpu_linkage_boost;
            let boosted = if b < 0 { 0 } else if b > 100 { 100 } else { b };
            let l = if boosted > left { boosted } else { left };
            control.gpu_linkage_enabled && gpu_temp >= control.gpu_linkage_threshold ==> linkage_step(
                control,
                gpu_temp,
                left,
                right,
            ) == (l, if l > right { l } else { right })
        }),
{
}

} // verus!
