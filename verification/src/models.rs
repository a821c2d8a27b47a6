use vstd::prelude::*;

verus! {

/// One point of a fan curve: at `temperature` degrees the fan runs at `speed` percent.
#[derive(Clone, Copy, PartialEq, Eq, Structural, Debug)]
pub struct FanPoint {
    pub temperature: i32,
    pub speed: i32,
}

/// The operating mode of the fan controller.
#[derive(Clone, Copy, PartialEq, Eq, Structural, Debug)]
pub enum FanControlMode {
    Silent,
    Office,
    Gaming,
    Performance,
    Custom,
}

pub open spec fn mode_name(m: FanControlMode) -> Seq<char> {
    match m {
        FanControlMode::Silent => "silent"@,
        FanControlMode::Office => "office"@,
        FanControlMode::Gaming => "gaming"@,
        FanControlMode::Performance => "performance"@,
        FanControlMode::Custom => "custom"@,
    }
}

impl FanControlMode {
    /// The lower-case name of the mode.
    pub fn as_str(&self) -> (s: &'static str)
        ensures
            s@ == mode_name(*self),
    {
        match self {
            FanControlMode::Silent => "silent",
            FanControlMode::Office => "office",
            FanControlMode::Gaming => "gaming",
            FanControlMode::Performance => "performance",
            FanControlMode::Custom => "custom",
        }
    }
}

impl Default for FanControlMode {
    fn default() -> (m: Self)
        ensures
            m == FanControlMode::Office,
    {
        FanControlMode::Office
    }
}

/// How the two fans are driven.
pub struct FanControlPolicy {
    /// "independent", "mix_max", "cpu_only" or "gpu_only".
    pub strategy: String,
    /// Name of the preset the mode stems from.
    pub preset: String,
    pub mode: FanControlMode,
    /// "curve" or "constant".
    pub control_mode: String,
    pub constant_speed_enabled: bool,
    pub constant_speed: i64,
    pub ramp_up_step: i64,
    pub ramp_down_step: i64,
    pub cpu_hysteresis_bandwidth: i64,
    pub gpu_hysteresis_bandwidth: i64,
    pub cpu_fan_max_percent: i64,
    pub gpu_fan_max_percent: i64,
    pub gpu_linkage_enabled: bool,
    pub gpu_linkage_threshold: i64,
    pub gpu_linkage_boost: i64,
    pub min_speed: i64,
    pub zero_rpm_enabled: bool,
    pub zero_rpm_threshold: i64,
}

impl Default for FanControlPolicy {
    fn default() -> (p: Self)
        ensures
            p.strategy@ == "independent"@,
            p.preset@ == "standard"@,
            p.mode == FanControlMode::Office,
            p.control_mode@ == "curve"@,
            !p.constant_speed_enabled,
            p.constant_speed == 60,
            p.ramp_up_step == 0,
            p.ramp_down_step == 0,
            p.cpu_hysteresis_bandwidth == 0,
            p.gpu_hysteresis_bandwidth == 0,
            p.cpu_fan_max_percent == 0,
            p.gpu_fan_max_percent == 0,
            !p.gpu_linkage_enabled,
            p.gpu_linkage_threshold == 75,
            p.gpu_linkage_boost == 10,
            p.min_speed == 20,
            !p.zero_rpm_enabled,
            p.zero_rpm_threshold == 45,
    {
        FanControlPolicy {
            strategy: String::from_str("independent"),
            preset: String::from_str("standard"),
            mode: FanControlMode::Office,
            control_mode: String::from_str("curve"),
            constant_speed_enabled: false,
            constant_speed: 60,
            ramp_up_step: 0,
            ramp_down_step: 0,
            cpu_hysteresis_bandwidth: 0,
            gpu_hysteresis_bandwidth: 0,
            cpu_fan_max_percent: 0,
            gpu_fan_max_percent: 0,
            gpu_linkage_enabled: false,
            gpu_linkage_threshold: 75,
            gpu_linkage_boost: 10,
            min_speed: 20,
            zero_rpm_enabled: false,
            zero_rpm_threshold: 45,
        }
    }
}

/// What happens when a temperature alert is raised.
#[derive(Clone, Copy, PartialEq, Eq, Structural, Debug)]
pub struct AlertActions {
    pub popup: bool,
    pub sound: bool,
    pub log: bool,
    pub force_shutdown: bool,
    /// Consecutive samples needed to raise or clear the alert.
    pub confirm_times: u32,
}

/// Alert rule of one sensor.
#[derive(Clone, Copy, PartialEq, Eq, Structural, Debug)]
pub struct SensorAlertRule {
    pub threshold: i64,
    pub actions: AlertActions,
}

/// Alert rules of both sensors.
#[derive(Clone, Copy, PartialEq, Eq, Structural, Debug)]
pub struct AlertConfig {
    pub cpu: SensorAlertRule,
    pub gpu: SensorAlertRule,
    /// How far below the threshold the temperature must fall to clear an alert.
    pub recover_delta: i64,
}

impl Default for AlertConfig {
    fn default() -> (a: Self)
        ensures
            a.cpu.threshold == 95,
            a.gpu.threshold == 90,
            a.recover_delta == 5,
            a.cpu.actions == (AlertActions { popup: true, sound: false, log: true, force_shutdown: false, confirm_times: 3 }),
            a.gpu.actions == (AlertActions { popup: true, sound: false, log: true, force_shutdown: false, confirm_times: 3 }),
    {
        let actions = AlertActions {
            popup: true,
            sound: false,
            log: true,
            force_shutdown: false,
            confirm_times: 3,
        };
        AlertConfig {
            cpu: SensorAlertRule { threshold: 95, actions },
            gpu: SensorAlertRule { threshold: 90, actions },
            recover_delta: 5,
        }
    }
}

/// Sampling and logging settings.
#[derive(Clone, Copy, PartialEq, Eq, Structural, Debug)]
pub struct MonitoringConfig {
    pub sample_interval_ms: u64,
    pub log_enabled: bool,
}

impl Default for MonitoringConfig {
    fn default() -> (m: Self)
        ensures
            m.sample_interval_ms == 1000,
            !m.log_enabled,
    {
        MonitoringConfig { sample_interval_ms: 1000, log_enabled: false }
    }
}

/// The whole fan configuration.
pub struct FanData {
    /// Curve of the left (CPU) fan.
    pub left_fan: Vec<FanPoint>,
    /// Curve of the right (GPU) fan.
    pub right_fan: Vec<FanPoint>,
    pub control: FanControlPolicy,
    pub alerts: AlertConfig,
    pub monitor: MonitoringConfig,
}

impl Default for FanData {
    fn default() -> (d: Self)
        ensures
            d.left_fan@.len() == 0,
            d.right_fan@.len() == 0,
            d.control.strategy@ == "independent"@,
            d.control.preset@ == "standard"@,
            d.control.mode == FanControlMode::Office,
            d.control.control_mode@ == "curve"@,
            !d.control.constant_speed_enabled,
            d.control.constant_speed == 60,
            d.control.ramp_up_step == 0,
            d.control.ramp_down_step == 0,
            d.control.cpu_hysteresis_bandwidth == 0,
            d.control.gpu_hysteresis_bandwidth == 0,
            d.control.cpu_fan_max_percent == 0,
            d.control.gpu_fan_max_percent == 0,
            !d.control.gpu_linkage_enabled,
            d.control.gpu_linkage_threshold == 75,
            d.control.gpu_linkage_boost == 10,
            d.control.min_speed == 20,
            !d.control.zero_rpm_enabled,
            d.control.zero_rpm_threshold == 45,
            d.alerts.cpu.threshold == 95,
            d.alerts.gpu.threshold == 90,
            d.alerts.recover_delta == 5,
            d.alerts.cpu.actions == (AlertActions { popup: true, sound: false, log: true, force_shutdown: false, confirm_times: 3 }),
            d.alerts.gpu.actions == (AlertActions { popup: true, sound: false, log: true, force_shutdown: false, confirm_times: 3 }),
            d.monitor.sample_interval_ms == 1000,
            !d.monitor.log_enabled,
    {
        FanData {
            left_fan: Vec::new(),
            right_fan: Vec::new(),
            control: FanControlPolicy::default(),
            alerts: AlertConfig::default(),
            monitor: MonitoringConfig::default(),
        }
    }
}

} // verus!
