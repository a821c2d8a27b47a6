use vstd::prelude::*;

use crate::constants::{CONTROL_SLEEP_MS, MAX_SENSOR_RPM, MAX_TEMP_LIMIT, SPEED_PUSH_INTERVAL_MS};
use crate::models::{mode_name, FanControlMode};
use crate::text::{append_decimal_i64, append_decimal_u64, decimal_int, decimal_nat};
use crate::num::{clamp, clamp_i64, in_i64, max, max_u64};

verus! {

/// Register value for a duty on the WMI interface: twice the percentage, limited to 0..=200.
pub open spec fn wmi_fan_value(percent: int) -> int {
    clamp(2 * percent, 0, 200)
}

/// PWM value for a duty on the sysfs interface: 2.55 times the percentage rounded down,
/// limited to 0..=255, values from 254 up raised to 255 so that full speed is reached.
pub open spec fn pwm_fan_value(percent: int) -> int {
    let v = if percent <= 0 {
        0
    } else if percent >= 100 {
        255
    } else {
        255 * percent / 100
    };
    if v >= 254 {
        255
    } else {
        v
    }
}

pub fn wmi_fan_raw(percent: i64) -> (r: i64)
    requires
        in_i64(2 * percent),
    ensures
        r == wmi_fan_value(percent as int),
        0 <= r <= 200,
{
    clamp_i64(percent * 2, 0, 200)
}

pub fn pwm_fan_raw(percent: i64) -> (r: i64)
    ensures
        r == pwm_fan_value(percent as int),
        0 <= r <= 255,
{
    let v = if percent <= 0 {
        0
    } else if percent >= 100 {
        255
    } else {
        255 * percent / 100
    };
    if v >= 254 {
        255
    } else {
        v
    }
}

/// One line of the monitoring log, each value limited to its plausible range.
#[derive(Clone, Copy, PartialEq, Eq, Structural, Debug)]
pub struct MonitorSample {
    pub cpu_temp: i64,
    pub gpu_temp: i64,
    pub cpu_fan_rpm: i64,
    pub gpu_fan_rpm: i64,
}

pub fn monitor_sample(cpu_temp: i64, gpu_temp: i64, cpu_fan: i64, gpu_fan: i64) -> (r: MonitorSample)
    ensures
        r.cpu_temp == clamp(cpu_temp as int, 0, MAX_TEMP_LIMIT as int),
        r.gpu_temp == clamp(gpu_temp as int, 0, MAX_TEMP_LIMIT as int),
        r.cpu_fan_rpm == clamp(cpu_fan as int, 0, MAX_SENSOR_RPM as int),
        r.gpu_fan_rpm == clamp(gpu_fan as int, 0, MAX_SENSOR_RPM as int),
{
    MonitorSample {
        cpu_temp: clamp_i64(cpu_temp, 0, MAX_TEMP_LIMIT),
        gpu_temp: clamp_i64(gpu_temp, 0, MAX_TEMP_LIMIT),
        cpu_fan_rpm: clamp_i64(cpu_fan, 0, MAX_SENSOR_RPM),
        gpu_fan_rpm: clamp_i64(gpu_fan, 0, MAX_SENSOR_RPM),
    }
}

/// A line of the monitoring log: time stamp, the four readings, strategy, preset and mode,
/// separated by commas.
pub open spec fn monitor_log_text(
    timestamp: u64,
    s: MonitorSample,
    strategy: Seq<char>,
    preset: Seq<char>,
    mode: FanControlMode,
) -> Seq<char> {
    decimal_nat(timestamp as nat) + ","@ + decimal_int(s.cpu_temp as int) + ","@ + decimal_int(s.gpu_temp as int)
        + ","@ + decimal_int(s.cpu_fan_rpm as int) + ","@ + decimal_int(s.gpu_fan_rpm as int) + ","@ + strategy
        + ","@ + preset + ","@ + mode_name(mode)
}

pub fn monitor_log_line(
    timestamp: u64,
    sample: &MonitorSample,
    strategy: &str,
    preset: &str,
    mode: FanControlMode,
) -> (r: String)
    ensures
        r@ == monitor_log_text(timestamp, *sample, strategy@, preset@, mode),
{
    let mut line = String::new();
    append_decimal_u64(&mut line, timestamp);
    line.append(",");
    append_decimal_i64(&mut line, sample.cpu_temp);
    line.append(",");
    append_decimal_i64(&mut line, sample.gpu_temp);
    line.append(",");
    append_decimal_i64(&mut line, sample.cpu_fan_rpm);
    line.append(",");
    append_decimal_i64(&mut line, sample.gpu_fan_rpm);
    line.append(",");
    line.append(strategy);
    line.append(",");
    line.append(preset);
    line.append(",");
    line.append(mode.as_str());
    assert(line@ =~= monitor_log_text(timestamp, *sample, strategy@, preset@, mode));
    line
}

/// Interval between two pushes of the fan readings to the front end: every 2.5 s.
pub fn push_interval_ms() -> (r: u64)
    ensures
        r == SPEED_PUSH_INTERVAL_MS,
        r == 2500,
{
    SPEED_PUSH_INTERVAL_MS
}

/// How long a restart waits for the running control loop to end.
pub fn restart_wait_ms(sample_interval_ms: u64) -> (r: u64)
    requires
        max(sample_interval_ms as int, CONTROL_SLEEP_MS as int) + 1500 <= u64::MAX,
    ensures
        r == max(sample_interval_ms as int, CONTROL_SLEEP_MS as int) + 1500,
{
    max_u64(sample_interval_ms, CONTROL_SLEEP_MS) + 1500
}

/// Machine code of a laptop model: 1 for "LAPAC71H", 0 for any other.
pub fn model_code(model: &str) -> (r: i64)
    ensures
        r == (if model@ == "LAPAC71H"@ { 1i64 } else { 0i64 }),
{
    proof {
        reveal_strlit("LAPKC71F");
        reveal_strlit("LAPAC71H");
        assert("LAPKC71F"@[3] != "LAPAC71H"@[3]);
    }
    if crate::text::str_eq(model, "LAPKC71F") {
        0
    } else if crate::text::str_eq(model, "LAPAC71H") {
        1
    } else {
        0
    }
}

/// Machine code of the first model reported, 0 when none is.
pub fn first_model_code(models: &Vec<String>) -> (r: i64)
    ensures
        models@.len() == 0 ==> r == 0,
        models@.len() > 0 ==> r == (if models@[0]@ == "LAPAC71H"@ { 1i64 } else { 0i64 }),
{
    if models.len() == 0 {
        return 0;
    }
    model_code(models[0].as_str())
}

/// Whether the beta switch file turns autostart on: `None` when its content is not a number,
/// otherwise whether the number is 1.
pub fn beta_enables_autostart(content: &str) -> (r: Option<bool>)
    ensures
        match crate::parse::decimal_i64(content@) {
            Some(v) => r == Some(v == 1),
            None => r is None,
        },
{
    match crate::parse::parse_i64(content) {
        Some(v) => Some(v == 1),
        None => None,
    }
}

/// Return code of a firmware call from its textual result; -1 when the text is not a number.
pub fn wmi_return_code(raw: &str) -> (r: i64)
    ensures
        match crate::parse::decimal_i64(raw@) {
            Some(v) => r == v,
            None => r == -1,
        },
{
    match crate::parse::parse_i64(raw) {
        Some(v) => v,
        None => -1,
    }
}

} // verus!
