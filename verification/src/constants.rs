use vstd::prelude::*;

verus! {

/// Highest fan duty in percent.
pub const MAX_FAN_SPEED_PERCENT: i64 = 100;

/// Lowest duty a running fan is driven at (a stopped fan stays at 0).
pub const MIN_FAN_SPEED: i64 = 20;

/// Default largest change of the duty per control step, upwards.
pub const FAN_RAMP_STEP: i64 = 10;

/// Default largest change of the duty per control step, downwards.
pub const FAN_RAMP_STEP_DOWN: i64 = 10;

/// Step allowed upwards when the temperature jumps quickly.
pub const FAST_RAMP_UP: i64 = 30;

/// Lowest plausible temperature reading in degrees Celsius.
pub const MIN_TEMP_LIMIT: i64 = 1;

/// Highest plausible temperature reading in degrees Celsius.
pub const MAX_TEMP_LIMIT: i64 = 110;

/// Above this temperature both fans go to full speed at once.
pub const TEMP_EMERGENCY: i64 = 95;

/// A rise of the raw reading over the smoothed one by this much counts as a jump.
pub const TEMP_JUMP_THRESHOLD: i64 = 8;

/// Highest plausible fan tachometer reading.
pub const MAX_SENSOR_RPM: i64 = 7000;

/// Base sleep of the control loop in milliseconds.
pub const CONTROL_SLEEP_MS: u64 = 1000;

/// Shortest sampling interval in milliseconds.
pub const MIN_MONITOR_SAMPLE_INTERVAL_MS: u64 = 500;

/// Longest sampling interval in milliseconds.
pub const MAX_MONITOR_SAMPLE_INTERVAL_MS: u64 = 5000;

/// Period of the push of fan readings to the front end, in milliseconds.
pub const SPEED_PUSH_INTERVAL_MS: u64 = 2500;

/// Sampling interval used when none is configured.
pub const DEFAULT_MONITOR_SAMPLE_INTERVAL_MS: u64 = 1000;

/// GPU temperature from which the CPU fan is boosted as well.
pub const DEFAULT_GPU_LINKAGE_THRESHOLD: i64 = 75;

/// Boost in percent applied by the GPU linkage.
pub const DEFAULT_GPU_LINKAGE_BOOST: i64 = 10;

/// Temperature up to which the fans may stop completely.
pub const DEFAULT_ZERO_RPM_THRESHOLD: i64 = 45;

/// Default CPU alert threshold.
pub const DEFAULT_CPU_ALERT_THRESHOLD: i64 = 95;

/// Default GPU alert threshold.
pub const DEFAULT_GPU_ALERT_THRESHOLD: i64 = 90;

/// Default number of consecutive samples that confirm an alert.
pub const DEFAULT_ALERT_CONFIRM_TIMES: u32 = 3;

/// Directory, under the user's configuration directory, that holds the configuration.
pub const CONFIG_DIR_NAME: &'static str = "com.nuc.x15.fan.cyear.app";

/// File of the current configuration.
pub const CONFIG_FILE_NAME: &'static str = "fan_config.json";

/// Directory of the saved profiles.
pub const PROFILE_DIR_NAME: &'static str = "profiles";

/// File of the monitoring log.
pub const MONITOR_LOG_FILE_NAME: &'static str = "monitor_log.csv";

/// File whose content switches autostart.
pub const BETA_FILE_NAME: &'static str = "beta.config";

/// Extension of a profile file.
pub const PROFILE_EXTENSION: &'static str = "json";

/// First line of the monitoring log.
pub const MONITOR_LOG_HEADER: &'static str = "timestamp,cpu_temp,gpu_temp,cpu_fan_rpm,gpu_fan_rpm,strategy,preset,mode";

} // verus!
