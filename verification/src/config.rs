use vstd::prelude::*;
use vstd::utf8::encode_utf8;

use crate::constants::{
    DEFAULT_ALERT_CONFIRM_TIMES, DEFAULT_CPU_ALERT_THRESHOLD, DEFAULT_GPU_ALERT_THRESHOLD,
    DEFAULT_GPU_LINKAGE_BOOST, DEFAULT_GPU_LINKAGE_THRESHOLD, DEFAULT_MONITOR_SAMPLE_INTERVAL_MS,
    DEFAULT_ZERO_RPM_THRESHOLD, MAX_MONITOR_SAMPLE_INTERVAL_MS, MAX_TEMP_LIMIT, MIN_FAN_SPEED,
    MIN_MONITOR_SAMPLE_INTERVAL_MS, MIN_TEMP_LIMIT,
};
use crate::fan_curve::{
    is_sanitized_of, lemma_sanitize_fixed_point, lemma_sanitized_in_range, points_in_range,
    sanitize_curve, strictly_increasing,
};
use crate::mode_profiles::{
    cpu_cap_of, default_cpu_fan_max_for_mode, default_gpu_fan_max_for_mode,
    default_hysteresis_for_mode, default_left_curve, default_profile_curves,
    default_ramp_step_for_mode, default_right_curve, gpu_cap_of, hysteresis_of, ramp_step_of,
};
use crate::models::{
    AlertActions, AlertConfig, FanControlMode, FanControlPolicy, FanData, FanPoint, MonitoringConfig,
};
use crate::num::{clamp, clamp_i64, clamp_u32, clamp_u64, min, min_i64, min_u64};
use crate::text::{
    ascii_lower_code, char_is_ascii_alphanumeric, eq_ignore_ascii_case, is_ascii_alphanumeric,
    str_eq_ignore_ascii_case, trim, trimmed,
};

verus! {

/// A profile name may hold ASCII letters, digits, `_` and `-`.
pub open spec fn profile_name_chars_ok(t: Seq<char>) -> bool {
    forall|i: int| 0 <= i < t.len() ==> #[trigger] is_ascii_alphanumeric(t[i]) || t[i] == '_' || t[i] == '-'
}

/// Outcome of checking a profile name: the trimmed name, or the message that rejects it.
pub open spec fn profile_name_check(profile: Seq<char>) -> Result<Seq<char>, Seq<char>> {
    let t = trimmed(profile);
    if t.len() == 0 {
        Err("配置名称不能为空"@)
    } else if encode_utf8(t).len() > 48 {
        Err("配置名称长度不能超过 48"@)
    } else if !profile_name_chars_ok(t) {
        Err("配置名称只能包含字母、数字、_、-"@)
    } else {
        Ok(t)
    }
}

pub open spec fn string_result_view(r: Result<String, String>) -> Result<Seq<char>, Seq<char>> {
    match r {
        Ok(s) => Ok(s@),
        Err(e) => Err(e@),
    }
}

/// Checks a profile name and returns it without surrounding white space.
pub fn sanitize_profile_name(profile: &str) -> (r: Result<String, String>)
    ensures
        string_result_view(r) == profile_name_check(profile@),
        ({
            let t = trimmed(profile@);
            t.len() > 0 && encode_utf8(t).len() <= 48 && (forall|i: int| 0 <= i < t.len() ==> ('a' <= #[trigger] t[i] <= 'z'
                || 'A' <= t[i] <= 'Z' || '0' <= t[i] <= '9' || t[i] == '_' || t[i] == '-')) ==> (r matches Ok(n) && n@ == t)
        }),
        ({
            let t = trimmed(profile@);
            t.len() > 0 && encode_utf8(t).len() <= 48 && (exists|i: int| 0 <= i < t.len() && !('a' <= #[trigger] t[i] <= 'z'
                || 'A' <= t[i] <= 'Z' || '0' <= t[i] <= '9' || t[i] == '_' || t[i] == '-')) ==> (r matches Err(m)
                && m@ == "配置名称只能包含字母、数字、_、-"@)
        }),
{
    proof {
        lemma_profile_name_accepted(profile@);
    }
    let name = trim(profile);
    if name.unicode_len() == 0 {
        return Err(String::from_str("配置名称不能为空"));
    }
    if name.as_bytes().len() > 48 {
        return Err(String::from_str("配置名称长度不能超过 48"));
    }
    let n = name.unicode_len();
    let mut i: usize = 0;
    while i < n
        invariant
            n == name@.len(),
            name@ == trimmed(profile@),
            n > 0,
            encode_utf8(name@).len() <= 48,
            i <= n,
            forall|k: int|
                0 <= k < i ==> #[trigger] is_ascii_alphanumeric(name@[k]) || name@[k] == '_'
                    || name@[k] == '-',
        decreases n - i,
    {
        let c = name.get_char(i);
        if !(char_is_ascii_alphanumeric(c) || c == '_' || c == '-') {
            assert(!(is_ascii_alphanumeric(name@[i as int]) || name@[i as int] == '_' || name@[i as int] == '-'));
            return Err(String::from_str("配置名称只能包含字母、数字、_、-"));
        }
        i = i + 1;
    }
    Ok(String::from_str(name))
}

/// An accepted profile name is 1 to 48 bytes of ASCII letters, digits, `_` and `-`, so the file
/// name made from it never leaves the profile directory: it holds no slash, backslash or dot.
pub proof fn lemma_profile_name_stays_in_directory(profile: Seq<char>)
    ensures
        profile_name_check(profile) matches Ok(t) ==> {
            &&& 0 < t.len() && encode_utf8(t).len() <= 48
            &&& forall|i: int| 0 <= i < t.len() ==> t[i] != '/' && t[i] != '\\' && t[i] != '.'
        },
{
    if let Ok(t) = profile_name_check(profile) {
        assert forall|i: int| 0 <= i < t.len() implies t[i] != '/' && t[i] != '\\' && t[i] != '.' by {
            assert(is_ascii_alphanumeric(t[i]) || t[i] == '_' || t[i] == '-');
        }
    }
}

/// A name that, trimmed, is 1 to 48 bytes of ASCII letters of either case, digits, `_` and `-`
/// is accepted and comes back trimmed; one with any other character is refused for its
/// characters.
pub proof fn lemma_profile_name_accepted(profile: Seq<char>)
    ensures
        ({
            let t = trimmed(profile);
            t.len() > 0 && encode_utf8(t).len() <= 48 && (forall|i: int| 0 <= i < t.len() ==> ('a' <= #[trigger] t[i] <= 'z'
                || 'A' <= t[i] <= 'Z' || '0' <= t[i] <= '9' || t[i] == '_' || t[i] == '-')) ==> profile_name_check(profile)
                == Ok::<Seq<char>, Seq<char>>(t)
        }),
        ({
            let t = trimmed(profile);
            t.len() > 0 && encode_utf8(t).len() <= 48 && (exists|i: int| 0 <= i < t.len() && !('a' <= #[trigger] t[i] <= 'z'
                || 'A' <= t[i] <= 'Z' || '0' <= t[i] <= '9' || t[i] == '_' || t[i] == '-')) ==> profile_name_check(profile)
                == Err::<Seq<char>, Seq<char>>("配置名称只能包含字母、数字、_、-"@)
        }),
{
    let t = trimmed(profile);
    if exists|i: int| 0 <= i < t.len() && !('a' <= #[trigger] t[i] <= 'z' || 'A' <= t[i] <= 'Z' || '0' <= t[i] <= '9'
        || t[i] == '_' || t[i] == '-') {
        let i = choose|i: int| 0 <= i < t.len() && !('a' <= #[trigger] t[i] <= 'z' || 'A' <= t[i] <= 'Z' || '0' <= t[i]
            <= '9' || t[i] == '_' || t[i] == '-');
        assert(!(is_ascii_alphanumeric(t[i]) || t[i] == '_' || t[i] == '-'));
        assert(!profile_name_chars_ok(t));
    }
}

/// File name under which a profile is stored: the checked name followed by `.json`.
pub fn profile_file_name(profile: &str) -> (r: Result<String, String>)
    ensures
        match profile_name_check(profile@) {
            Ok(t) => r matches Ok(f) && f@ == t + ".json"@,
            Err(e) => r matches Err(m) && m@ == e,
        },
        ({
            let t = trimmed(profile@);
            t.len() > 0 && encode_utf8(t).len() <= 48 && (forall|i: int| 0 <= i < t.len() ==> ('a' <= #[trigger] t[i] <= 'z'
                || 'A' <= t[i] <= 'Z' || '0' <= t[i] <= '9' || t[i] == '_' || t[i] == '-')) ==> (r matches Ok(f) && f@ == t
                + ".json"@)
        }),
{
    proof {
        lemma_profile_name_accepted(profile@);
    }
    match sanitize_profile_name(profile) {
        Ok(safe) => Ok(safe.concat(".json")),
        Err(e) => Err(e),
    }
}

// ---------------------------------------------------------------------------------------------
// Normalization of a configuration

/// The strategy kept, compared without regard to ASCII case; unknown ones become "independent".
pub open spec fn norm_strategy(s: Seq<char>) -> Seq<char> {
    if eq_ignore_ascii_case(s, "independent"@) {
        "independent"@
    } else if eq_ignore_ascii_case(s, "mix_max"@) {
        "mix_max"@
    } else if eq_ignore_ascii_case(s, "cpu_only"@) {
        "cpu_only"@
    } else if eq_ignore_ascii_case(s, "gpu_only"@) {
        "gpu_only"@
    } else {
        "independent"@
    }
}

/// The mode: an Office configuration takes its mode from a legacy preset name.
pub open spec fn norm_mode(mode: FanControlMode, preset: Seq<char>) -> FanControlMode {
    if mode == FanControlMode::Office {
        if eq_ignore_ascii_case(preset, "silent"@) {
            FanControlMode::Silent
        } else if eq_ignore_ascii_case(preset, "performance"@) || eq_ignore_ascii_case(preset, "gaming"@) {
            FanControlMode::Gaming
        } else if eq_ignore_ascii_case(preset, "fullspeed"@) {
            FanControlMode::Performance
        } else if eq_ignore_ascii_case(preset, "custom"@) {
            FanControlMode::Custom
        } else {
            FanControlMode::Office
        }
    } else {
        mode
    }
}

/// Preset name recorded for a mode.
pub open spec fn preset_of(m: FanControlMode) -> Seq<char> {
    match m {
        FanControlMode::Silent => "silent"@,
        FanControlMode::Office => "standard"@,
        FanControlMode::Gaming => "performance"@,
        FanControlMode::Performance => "fullspeed"@,
        FanControlMode::Custom => "custom"@,
    }
}

/// "curve" or "constant" (ignoring ASCII case); otherwise decided by the constant-speed switch.
pub open spec fn norm_control_mode(cm: Seq<char>, constant_enabled: bool) -> Seq<char> {
    if eq_ignore_ascii_case(cm, "curve"@) {
        "curve"@
    } else if eq_ignore_ascii_case(cm, "constant"@) {
        "constant"@
    } else if constant_enabled {
        "constant"@
    } else {
        "curve"@
    }
}

/// Constant speed limited to 0..=100; 60 when enabled but 0.
pub open spec fn norm_constant_speed(v: int, enabled: bool) -> int {
    let c = clamp(v, 0, 100);
    if c == 0 && enabled {
        60
    } else {
        c
    }
}

/// A positive setting limited to `1..=hi`, the mode's default standing in for a non-positive one.
pub open spec fn norm_positive(v: int, default: int, hi: int) -> int {
    clamp(if v <= 0 { default } else { v }, 1, hi)
}

/// A fan cap limited to 20..=100 and, outside Custom mode, to the mode's cap.
pub open spec fn norm_cap(v: int, cap: int, m: FanControlMode) -> int {
    let c = clamp(if v <= 0 { cap } else { v }, 20, 100);
    if m != FanControlMode::Custom {
        min(c, cap)
    } else {
        c
    }
}

/// A curve is sanitized; an empty one is replaced by the given default curve.
pub open spec fn norm_curve(input: Seq<FanPoint>, output: Seq<FanPoint>, default: Seq<FanPoint>) -> bool {
    if input.len() > 0 {
        is_sanitized_of(input, output)
    } else {
        output == default
    }
}

/// `o` is the normalized form of `i`.
pub open spec fn normalizes_to(i: FanData, o: FanData) -> bool {
    let m = norm_mode(i.control.mode, i.control.preset@);
    let c = i.control;
    let d = o.control;
    &&& d.strategy@ == norm_strategy(c.strategy@)
    &&& d.mode == m
    &&& d.preset@ == preset_of(m)
    &&& norm_curve(i.left_fan@, o.left_fan@, default_left_curve(m))
    &&& norm_curve(i.right_fan@, o.right_fan@, default_right_curve(m))
    &&& settings_normalized(c, d, m)
    &&& alerts_normalized(i.alerts, o.alerts)
    &&& o.monitor == (MonitoringConfig {
        sample_interval_ms: clamp(i.monitor.sample_interval_ms as int, 500, 1000) as u64,
        log_enabled: i.monitor.log_enabled,
    })
}

/// A usable curve: not empty, temperatures strictly increasing, points in range.
pub open spec fn curve_ok(c: Seq<FanPoint>) -> bool {
    c.len() > 0 && strictly_increasing(c) && points_in_range(c)
}

/// Every setting of `d` lies in its normalized range.
pub open spec fn is_normalized(d: FanData) -> bool {
    let c = d.control;
    &&& c.strategy@ == "independent"@ || c.strategy@ == "mix_max"@ || c.strategy@ == "cpu_only"@
        || c.strategy@ == "gpu_only"@
    &&& c.preset@ == preset_of(c.mode)
    &&& curve_ok(d.left_fan@)
    &&& curve_ok(d.right_fan@)
    &&& c.control_mode@ == "curve"@ || c.control_mode@ == "constant"@
    &&& 0 <= c.constant_speed <= 100
    &&& c.constant_speed_enabled ==> c.constant_speed != 0
    &&& 1 <= c.ramp_up_step <= 40
    &&& 1 <= c.ramp_down_step <= 30
    &&& 1 <= c.cpu_hysteresis_bandwidth <= 12
    &&& 1 <= c.gpu_hysteresis_bandwidth <= 12
    &&& 20 <= c.cpu_fan_max_percent <= 100
    &&& 20 <= c.gpu_fan_max_percent <= 100
    &&& c.mode != FanControlMode::Custom ==> c.cpu_fan_max_percent <= cpu_cap_of(c.mode)
    &&& c.mode != FanControlMode::Custom ==> c.gpu_fan_max_percent <= gpu_cap_of(c.mode)
    &&& 60 <= c.gpu_linkage_threshold <= MAX_TEMP_LIMIT
    &&& 0 <= c.gpu_linkage_boost <= 30
    &&& 0 <= c.min_speed <= 60
    &&& MIN_TEMP_LIMIT <= c.zero_rpm_threshold <= MAX_TEMP_LIMIT
    &&& 50 <= d.alerts.cpu.threshold <= MAX_TEMP_LIMIT
    &&& 50 <= d.alerts.gpu.threshold <= MAX_TEMP_LIMIT
    &&& 1 <= d.alerts.recover_delta <= 10
    &&& 1 <= d.alerts.cpu.actions.confirm_times <= 10
    &&& 1 <= d.alerts.gpu.actions.confirm_times <= 10
    &&& 500 <= d.monitor.sample_interval_ms <= 1000
}

fn strategy_of(s: &str) -> (r: String)
    ensures
        r@ == norm_strategy(s@),
{
    if str_eq_ignore_ascii_case(s, "independent") {
        String::from_str("independent")
    } else if str_eq_ignore_ascii_case(s, "mix_max") {
        String::from_str("mix_max")
    } else if str_eq_ignore_ascii_case(s, "cpu_only") {
        String::from_str("cpu_only")
    } else if str_eq_ignore_ascii_case(s, "gpu_only") {
        String::from_str("gpu_only")
    } else {
        String::from_str("independent")
    }
}

fn mode_from_preset(mode: FanControlMode, preset: &str) -> (r: FanControlMode)
    ensures
        r == norm_mode(mode, preset@),
{
    if mode == FanControlMode::Office {
        if str_eq_ignore_ascii_case(preset, "silent") {
            FanControlMode::Silent
        } else if str_eq_ignore_ascii_case(preset, "performance") || str_eq_ignore_ascii_case(preset, "gaming") {
            FanControlMode::Gaming
        } else if str_eq_ignore_ascii_case(preset, "fullspeed") {
            FanControlMode::Performance
        } else if str_eq_ignore_ascii_case(preset, "custom") {
            FanControlMode::Custom
        } else {
            FanControlMode::Office
        }
    } else {
        mode
    }
}

fn preset_name(mode: FanControlMode) -> (r: String)
    ensures
        r@ == preset_of(mode),
{
    match mode {
        FanControlMode::Silent => String::from_str("silent"),
        FanControlMode::Office => String::from_str("standard"),
        FanControlMode::Gaming => String::from_str("performance"),
        FanControlMode::Performance => String::from_str("fullspeed"),
        FanControlMode::Custom => String::from_str("custom"),
    }
}

fn control_mode_of(cm: &str, constant_enabled: bool) -> (r: String)
    ensures
        r@ == norm_control_mode(cm@, constant_enabled),
{
    if str_eq_ignore_ascii_case(cm, "curve") {
        String::from_str("curve")
    } else if str_eq_ignore_ascii_case(cm, "constant") {
        String::from_str("constant")
    } else if constant_enabled {
        String::from_str("constant")
    } else {
        String::from_str("curve")
    }
}

/// The numeric and textual control settings of `i`, normalized, with the mode and preset
/// already settled and curves untouched.
pub open spec fn control_normalized(i: FanControlPolicy, d: FanControlPolicy) -> bool {
    &&& d.strategy@ == i.strategy@
    &&& d.mode == i.mode
    &&& d.preset@ == i.preset@
    &&& settings_normalized(i, d, i.mode)
}

/// The control settings of `i` other than strategy, mode and preset, normalized for mode `m`.
pub open spec fn settings_normalized(i: FanControlPolicy, d: FanControlPolicy, m: FanControlMode) -> bool {
    &&& d.control_mode@ == norm_control_mode(i.control_mode@, i.constant_speed_enabled)
    &&& d.constant_speed_enabled == i.constant_speed_enabled
    &&& d.constant_speed == norm_constant_speed(i.constant_speed as int, i.constant_speed_enabled)
    &&& d.ramp_up_step == norm_positive(i.ramp_up_step as int, ramp_step_of(m) as int, 40)
    &&& d.ramp_down_step == norm_positive(i.ramp_down_step as int, ramp_step_of(m) as int, 30)
    &&& d.cpu_hysteresis_bandwidth == norm_positive(i.cpu_hysteresis_bandwidth as int, hysteresis_of(m) as int, 12)
    &&& d.gpu_hysteresis_bandwidth == norm_positive(i.gpu_hysteresis_bandwidth as int, hysteresis_of(m) as int, 12)
    &&& d.cpu_fan_max_percent == norm_cap(i.cpu_fan_max_percent as int, cpu_cap_of(m) as int, m)
    &&& d.gpu_fan_max_percent == norm_cap(i.gpu_fan_max_percent as int, gpu_cap_of(m) as int, m)
    &&& d.gpu_linkage_enabled == i.gpu_linkage_enabled
    &&& d.gpu_linkage_threshold == clamp(
        if i.gpu_linkage_threshold <= 0 { DEFAULT_GPU_LINKAGE_THRESHOLD as int } else { i.gpu_linkage_threshold as int },
        60,
        MAX_TEMP_LIMIT as int,
    )
    &&& d.gpu_linkage_boost == clamp(
        if i.gpu_linkage_boost < 0 { DEFAULT_GPU_LINKAGE_BOOST as int } else { i.gpu_linkage_boost as int },
        0,
        30,
    )
    &&& d.min_speed == clamp(i.min_speed as int, 0, 60)
    &&& d.zero_rpm_enabled == i.zero_rpm_enabled
    &&& d.zero_rpm_threshold == clamp(i.zero_rpm_threshold as int, MIN_TEMP_LIMIT as int, MAX_TEMP_LIMIT as int)
}

/// The alert settings of `i`, normalized.
pub open spec fn alerts_normalized(i: AlertConfig, o: AlertConfig) -> bool {
    &&& o.cpu.threshold == clamp(i.cpu.threshold as int, 50, MAX_TEMP_LIMIT as int)
    &&& o.gpu.threshold == clamp(i.gpu.threshold as int, 50, MAX_TEMP_LIMIT as int)
    &&& o.recover_delta == clamp(i.recover_delta as int, 1, 10)
    &&& o.cpu.actions == (AlertActions {
        confirm_times: clamp(i.cpu.actions.confirm_times as int, 1, 10) as u32,
        ..i.cpu.actions
    })
    &&& o.gpu.actions == (AlertActions {
        confirm_times: clamp(i.gpu.actions.confirm_times as int, 1, 10) as u32,
        ..i.gpu.actions
    })
}

fn positive_or_default(v: i64, default: i64, hi: i64) -> (r: i64)
    requires
        1 <= hi,
    ensures
        r == norm_positive(v as int, default as int, hi as int),
{
    let mut r = v;
    if r <= 0 {
        r = default;
    }
    clamp_i64(r, 1, hi)
}

fn fan_cap(v: i64, cap: i64, mode: FanControlMode) -> (r: i64)
    ensures
        r == norm_cap(v as int, cap as int, mode),
{
    let mut r = v;
    if r <= 0 {
        r = cap;
    }
    r = clamp_i64(r, 20, 100);
    if mode != FanControlMode::Custom {
        r = min_i64(r, cap);
    }
    r
}

fn normalize_control_settings(control: &mut FanControlPolicy)
    ensures
        control_normalized(*old(control), *final(control)),
{
    let mode = control.mode;
    control.control_mode = control_mode_of(control.control_mode.as_str(), control.constant_speed_enabled);

    let mut constant_speed = clamp_i64(control.constant_speed, 0, 100);
    if constant_speed == 0 && control.constant_speed_enabled {
        constant_speed = 60;
    }
    control.constant_speed = constant_speed;

    let mode_step = default_ramp_step_for_mode(&mode);
    control.ramp_up_step = positive_or_default(control.ramp_up_step, mode_step, 40);
    control.ramp_down_step = positive_or_default(control.ramp_down_step, mode_step, 30);

    let mode_cpu_cap = default_cpu_fan_max_for_mode(&mode);
    let mode_gpu_cap = default_gpu_fan_max_for_mode(&mode);
    let mode_hysteresis = default_hysteresis_for_mode(&mode);

    control.cpu_hysteresis_bandwidth = positive_or_default(control.cpu_hysteresis_bandwidth, mode_hysteresis, 12);
    control.gpu_hysteresis_bandwidth = positive_or_default(control.gpu_hysteresis_bandwidth, mode_hysteresis, 12);

    control.cpu_fan_max_percent = fan_cap(control.cpu_fan_max_percent, mode_cpu_cap, mode);
    control.gpu_fan_max_percent = fan_cap(control.gpu_fan_max_percent, mode_gpu_cap, mode);

    let mut threshold = control.gpu_linkage_threshold;
    if threshold <= 0 {
        threshold = DEFAULT_GPU_LINKAGE_THRESHOLD;
    }
    control.gpu_linkage_threshold = clamp_i64(threshold, 60, MAX_TEMP_LIMIT);

    let mut boost = control.gpu_linkage_boost;
    if boost < 0 {
        boost = DEFAULT_GPU_LINKAGE_BOOST;
    }
    control.gpu_linkage_boost = clamp_i64(boost, 0, 30);

    let mut min_speed = clamp_i64(control.min_speed, 0, 60);
    if min_speed < 0 {
        min_speed = MIN_FAN_SPEED;
    }
    control.min_speed = min_speed;

    let mut zero_rpm_threshold = clamp_i64(control.zero_rpm_threshold, MIN_TEMP_LIMIT, MAX_TEMP_LIMIT);
    if zero_rpm_threshold <= 0 {
        zero_rpm_threshold = DEFAULT_ZERO_RPM_THRESHOLD;
    }
    control.zero_rpm_threshold = zero_rpm_threshold;
}

fn normalize_alerts(alerts: &mut AlertConfig)
    ensures
        alerts_normalized(*old(alerts), *final(alerts)),
{
    alerts.cpu.threshold = clamp_i64(alerts.cpu.threshold, 50, MAX_TEMP_LIMIT);
    if alerts.cpu.threshold <= 0 {
        alerts.cpu.threshold = DEFAULT_CPU_ALERT_THRESHOLD;
    }

    alerts.gpu.threshold = clamp_i64(alerts.gpu.threshold, 50, MAX_TEMP_LIMIT);
    if alerts.gpu.threshold <= 0 {
        alerts.gpu.threshold = DEFAULT_GPU_ALERT_THRESHOLD;
    }

    alerts.recover_delta = clamp_i64(alerts.recover_delta, 1, 10);

    alerts.cpu.actions.confirm_times = clamp_u32(alerts.cpu.actions.confirm_times, 1, 10);
    if alerts.cpu.actions.confirm_times == 0 {
        alerts.cpu.actions.confirm_times = DEFAULT_ALERT_CONFIRM_TIMES;
    }

    alerts.gpu.actions.confirm_times = clamp_u32(alerts.gpu.actions.confirm_times, 1, 10);
    if alerts.gpu.actions.confirm_times == 0 {
        alerts.gpu.actions.confirm_times = DEFAULT_ALERT_CONFIRM_TIMES;
    }
}

fn normalize_sample_interval(ms: u64) -> (r: u64)
    ensures
        r == clamp(ms as int, 500, 1000),
{
    let mut r = clamp_u64(ms, MIN_MONITOR_SAMPLE_INTERVAL_MS, min_u64(MAX_MONITOR_SAMPLE_INTERVAL_MS, 1000));
    if r == 0 {
        r = clamp_u64(DEFAULT_MONITOR_SAMPLE_INTERVAL_MS, 500, 1000);
    }
    r
}

/// Brings every setting of a configuration into its valid range, fills in the mode's defaults
/// for settings left unset, and replaces empty curves by the mode's built-in ones.
pub fn normalize_fan_data(fan_data: FanData) -> (r: FanData)
    ensures
        normalizes_to(fan_data, r),
        is_normalized(r),
{
    let ghost input = fan_data;
    let mut fd = fan_data;

    fd.control.strategy = strategy_of(fd.control.strategy.as_str());

    fd.control.mode = mode_from_preset(fd.control.mode, fd.control.preset.as_str());
    fd.control.preset = preset_name(fd.control.mode);

    fd.left_fan = sanitize_curve(fd.left_fan.as_slice(), "左");
    fd.right_fan = sanitize_curve(fd.right_fan.as_slice(), "右");

    if fd.left_fan.len() == 0 || fd.right_fan.len() == 0 {
        let (left_defaults, right_defaults) = default_profile_curves(&fd.control.mode);
        if fd.left_fan.len() == 0 {
            fd.left_fan = left_defaults;
        }
        if fd.right_fan.len() == 0 {
            fd.right_fan = right_defaults;
        }
    }

    normalize_control_settings(&mut fd.control);
    normalize_alerts(&mut fd.alerts);
    fd.monitor.sample_interval_ms = normalize_sample_interval(fd.monitor.sample_interval_ms);

    proof {
        lemma_normalized_in_range(input, fd);
    }
    fd
}

/// Two configurations hold the same settings.
pub open spec fn same_config(a: FanData, b: FanData) -> bool {
    let x = a.control;
    let y = b.control;
    &&& a.left_fan@ == b.left_fan@
    &&& a.right_fan@ == b.right_fan@
    &&& x.strategy@ == y.strategy@
    &&& x.preset@ == y.preset@
    &&& x.mode == y.mode
    &&& x.control_mode@ == y.control_mode@
    &&& x.constant_speed_enabled == y.constant_speed_enabled
    &&& x.constant_speed == y.constant_speed
    &&& x.ramp_up_step == y.ramp_up_step
    &&& x.ramp_down_step == y.ramp_down_step
    &&& x.cpu_hysteresis_bandwidth == y.cpu_hysteresis_bandwidth
    &&& x.gpu_hysteresis_bandwidth == y.gpu_hysteresis_bandwidth
    &&& x.cpu_fan_max_percent == y.cpu_fan_max_percent
    &&& x.gpu_fan_max_percent == y.gpu_fan_max_percent
    &&& x.gpu_linkage_enabled == y.gpu_linkage_enabled
    &&& x.gpu_linkage_threshold == y.gpu_linkage_threshold
    &&& x.gpu_linkage_boost == y.gpu_linkage_boost
    &&& x.min_speed == y.min_speed
    &&& x.zero_rpm_enabled == y.zero_rpm_enabled
    &&& x.zero_rpm_threshold == y.zero_rpm_threshold
    &&& a.alerts == b.alerts
    &&& a.monitor == b.monitor
}

/// Strictly increasing temperatures follow from increases between neighbours.
proof fn lemma_increasing_by_neighbours(s: Seq<FanPoint>)
    requires
        forall|i: int| 0 <= i < s.len() - 1 ==> #[trigger] s[i].temperature < s[i + 1].temperature,
    ensures
        strictly_increasing(s),
    decreases s.len(),
{
    if s.len() > 0 {
        let t = s.drop_last();
        assert forall|i: int| 0 <= i < t.len() - 1 implies #[trigger] t[i].temperature < t[i + 1].temperature by {
            assert(t[i] == s[i] && t[i + 1] == s[i + 1]);
        }
        lemma_increasing_by_neighbours(t);
        assert forall|i: int, j: int| 0 <= i < j < s.len() implies #[trigger] s[i].temperature
            < #[trigger] s[j].temperature by {
            if j < s.len() - 1 {
                assert(t[i] == s[i] && t[j] == s[j]);
            } else if i < j - 1 {
                assert(t[i] == s[i] && t[j - 1] == s[j - 1]);
                assert(t[i].temperature < t[j - 1].temperature);
            }
        }
    }
}

/// Neighbouring points from `i` on increase in temperature and every point from `i` on is in range.
pub open spec fn curve_ok_from(s: Seq<FanPoint>, i: int) -> bool
    decreases s.len() - i,
{
    if i < 0 || i >= s.len() {
        true
    } else {
        &&& MIN_TEMP_LIMIT <= s[i].temperature <= MAX_TEMP_LIMIT
        &&& 0 <= s[i].speed <= 100
        &&& (i + 1 < s.len() ==> s[i].temperature < s[i + 1].temperature)
        &&& curve_ok_from(s, i + 1)
    }
}

proof fn lemma_curve_ok_from(s: Seq<FanPoint>, i: int)
    requires
        0 <= i <= s.len(),
        curve_ok_from(s, i),
    ensures
        forall|k: int| i <= k < s.len() - 1 ==> #[trigger] s[k].temperature < s[k + 1].temperature,
        forall|k: int| i <= k < s.len() ==> MIN_TEMP_LIMIT <= #[trigger] s[k].temperature <= MAX_TEMP_LIMIT && 0 <= s[k].speed <= 100,
    decreases s.len() - i,
{
    if i < s.len() {
        lemma_curve_ok_from(s, i + 1);
    }
}

proof fn lemma_curve_ok_by_neighbours(s: Seq<FanPoint>)
    requires
        s.len() > 0,
        curve_ok_from(s, 0),
    ensures
        curve_ok(s),
{
    lemma_curve_ok_from(s, 0);
    lemma_increasing_by_neighbours(s);
}

/// The built-in curves of every mode are usable.
pub proof fn lemma_default_curves_ok(m: FanControlMode)
    ensures
        curve_ok(default_left_curve(m)),
        curve_ok(default_right_curve(m)),
{
    let l = default_left_curve(m);
    let r = default_right_curve(m);
    assert(curve_ok_from(l, 0)) by {
        reveal_with_fuel(curve_ok_from, 6);
    }
    assert(curve_ok_from(r, 0)) by {
        reveal_with_fuel(curve_ok_from, 6);
    }
    lemma_curve_ok_by_neighbours(l);
    lemma_curve_ok_by_neighbours(r);
}

/// Every normalized configuration has all its settings in range.
pub proof fn lemma_normalized_in_range(i: FanData, o: FanData)
    requires
        normalizes_to(i, o),
    ensures
        is_normalized(o),
{
    let m = o.control.mode;
    lemma_default_curves_ok(m);
    if i.left_fan@.len() > 0 {
        lemma_sanitized_in_range(i.left_fan@, o.left_fan@);
    }
    if i.right_fan@.len() > 0 {
        lemma_sanitized_in_range(i.right_fan@, o.right_fan@);
    }
}

/// Normalizing a configuration whose settings are all in range changes nothing; in particular
/// normalizing twice gives the same configuration as normalizing once.
pub proof fn lemma_normalize_idempotent(b: FanData, c: FanData)
    requires
        is_normalized(b),
        normalizes_to(b, c),
    ensures
        same_config(b, c),
{
    reveal_strlit("independent");
    reveal_strlit("mix_max");
    reveal_strlit("cpu_only");
    reveal_strlit("gpu_only");
    reveal_strlit("standard");
    reveal_strlit("silent");
    reveal_strlit("performance");
    reveal_strlit("gaming");
    reveal_strlit("fullspeed");
    reveal_strlit("custom");
    reveal_strlit("curve");
    reveal_strlit("constant");
    lemma_sanitize_fixed_point(b.left_fan@, c.left_fan@);
    lemma_sanitize_fixed_point(b.right_fan@, c.right_fan@);
    let s = b.control.strategy@;
    if s == "gpu_only"@ {
        assert(ascii_lower_code(s[0]) != ascii_lower_code("cpu_only"@[0]));
    }
    assert(c.alerts.cpu.actions == b.alerts.cpu.actions);
    assert(c.alerts.gpu.actions == b.alerts.gpu.actions);
}

/// The settings of the default configuration once normalized.
pub open spec fn is_default_config(d: FanData) -> bool {
    let c = d.control;
    let actions = AlertActions { popup: true, sound: false, log: true, force_shutdown: false, confirm_times: 3 };
    &&& c.strategy@ == "independent"@
    &&& c.mode == FanControlMode::Office
    &&& c.preset@ == "standard"@
    &&& d.left_fan@ == default_left_curve(FanControlMode::Office)
    &&& d.right_fan@ == default_right_curve(FanControlMode::Office)
    &&& c.control_mode@ == "curve"@
    &&& !c.constant_speed_enabled && c.constant_speed == 60
    &&& c.ramp_up_step == 8 && c.ramp_down_step == 8
    &&& c.cpu_hysteresis_bandwidth == 4 && c.gpu_hysteresis_bandwidth == 4
    &&& c.cpu_fan_max_percent == 80 && c.gpu_fan_max_percent == 80
    &&& !c.gpu_linkage_enabled && c.gpu_linkage_threshold == 75 && c.gpu_linkage_boost == 10
    &&& c.min_speed == 20
    &&& !c.zero_rpm_enabled && c.zero_rpm_threshold == 45
    &&& d.alerts.cpu.threshold == 95 && d.alerts.gpu.threshold == 90
    &&& d.alerts.recover_delta == 5
    &&& d.alerts.cpu.actions == actions && d.alerts.gpu.actions == actions
    &&& d.monitor.sample_interval_ms == 1000 && !d.monitor.log_enabled
}

/// The normalized default configuration.
pub fn default_fan_data() -> (r: FanData)
    ensures
        is_default_config(r),
        is_normalized(r),
{
    let d = FanData::default();
    proof {
        reveal_strlit("standard");
        reveal_strlit("silent");
        reveal_strlit("performance");
        reveal_strlit("gaming");
        reveal_strlit("fullspeed");
        reveal_strlit("custom");
    }
    normalize_fan_data(d)
}

} // verus!
