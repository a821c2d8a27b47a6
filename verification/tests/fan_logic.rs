use nuc_fan::config::{default_fan_data, normalize_fan_data};
use nuc_fan::fan_curve::speed_handle;
use nuc_fan::models::{
    AlertActions, AlertConfig, FanControlPolicy, FanData, FanPoint, MonitoringConfig,
    SensorAlertRule,
};
use nuc_fan::output::{pwm_fan_raw, wmi_fan_raw};
use nuc_fan::ramp::ramp_speed;

/// Interpolated speeds are limited to 0..=100.
#[test]
fn test_speed_handle_clamp() {
    assert_eq!(speed_handle(40, 20, 60, 80, 50), 50);
    assert_eq!(speed_handle(0, -10, 100, -10, 50), 0);
    assert_eq!(speed_handle(0, 90, 10, 200, 9), 100);
}

/// A vertical segment yields the old speed instead of dividing by zero.
#[test]
fn test_speed_handle_div_zero() {
    assert_eq!(speed_handle(50, 60, 50, 80, 50), 60);
}

#[test]
fn test_speed_handle_below_first_point() {
    assert_eq!(speed_handle(0, 0, 30, 30, 25), 25);
}

/// Full speed is recognised by both duties, not by their sum.
#[test]
fn test_full_speed_cache_check() {
    let cache: [i64; 2] = [100, 100];
    assert!(cache[0] == 100 && cache[1] == 100);
    let cache_bug: [i64; 2] = [150, 50];
    assert!(!(cache_bug[0] == 100 && cache_bug[1] == 100));
    assert_eq!(cache_bug[0] + cache_bug[1], 200);
}

#[test]
fn test_fan_set_mapping_bounds() {
    assert_eq!((100i64 * 2).clamp(0, 200), 200);
    assert_eq!((0i64 * 2).clamp(0, 200), 0);
    assert_eq!((110i64 * 2).clamp(0, 200), 200);
    let lv = ((2.55 * 100f64) as i64).clamp(0, 255);
    assert_eq!(if lv >= 254 { 255 } else { lv }, 255);
    let lv99 = ((2.55 * 99f64) as i64).clamp(0, 255);
    assert_eq!(if lv99 >= 254 { 255 } else { lv99 }, 252);

    assert_eq!(wmi_fan_raw(100), 200);
    assert_eq!(wmi_fan_raw(0), 0);
    assert_eq!(wmi_fan_raw(110), 200);
    assert_eq!(pwm_fan_raw(100), 255);
    assert_eq!(pwm_fan_raw(99), 252);
}

/// A stopped fan starts at the target, but not below the minimum speed.
#[test]
fn test_ramp_speed_first_start() {
    assert_eq!(ramp_speed(0, 60), 60);
    assert_eq!(ramp_speed(0, 10), 20);
}

/// A running fan moves by at most one step, and not below the minimum speed.
#[test]
fn test_ramp_speed_step_limit() {
    assert_eq!(ramp_speed(50, 80), 60);
    assert_eq!(ramp_speed(50, 20), 40);
    assert_eq!(ramp_speed(25, 10), 20);
}

/// Command words sent over WMI keep their length for every value in range.
#[test]
fn test_wmi_format_string_length() {
    for v in [0i64, 100, 200] {
        let s = format!("0x0000000000{:02X}1809", v);
        assert_eq!(s.len(), 18, "v={} 格式字符串长度异常: {}", v, s);
    }
    for v in [0i64, 65, 150] {
        let s = format!("0x0000000000{:02X}0783", v);
        assert_eq!(s.len(), 18, "v={} TDP格式字符串长度异常: {}", v, s);
    }
}

#[test]
fn test_fan_speeds_filter() {
    assert!(1i64 <= 50 && 50 <= 105);
    assert!((0i64..=7000).contains(&3500));

    assert!(!(1i64..=105).contains(&0));
    assert!(!(1i64..=105).contains(&-1));
    assert!(!(1i64..=105).contains(&106));
    assert!(!(0i64..=7000).contains(&7001));
}

#[test]
fn test_default_fan_data_has_valid_curve() {
    let d = default_fan_data();
    assert!(!d.left_fan.is_empty());
    assert!(!d.right_fan.is_empty());
    assert_eq!(d.control.strategy, "independent");
    assert!(d.monitor.sample_interval_ms >= 500);
}

#[test]
fn test_normalize_fan_data_clamps_values() {
    let bad = FanData {
        left_fan: vec![FanPoint {
            temperature: -10,
            speed: 999,
        }],
        right_fan: vec![FanPoint {
            temperature: 999,
            speed: -20,
        }],
        control: FanControlPolicy {
            strategy: "invalid".to_string(),
            preset: "invalid".to_string(),
            ramp_up_step: -1,
            ramp_down_step: 99,
            min_speed: 99,
            zero_rpm_enabled: true,
            zero_rpm_threshold: 999,
            ..Default::default()
        },
        alerts: AlertConfig {
            cpu: SensorAlertRule {
                threshold: -5,
                actions: AlertActions {
                    popup: true,
                    sound: false,
                    log: true,
                    force_shutdown: false,
                    confirm_times: 0,
                },
            },
            gpu: SensorAlertRule {
                threshold: 500,
                actions: AlertActions {
                    popup: true,
                    sound: false,
                    log: true,
                    force_shutdown: false,
                    confirm_times: 999,
                },
            },
            recover_delta: 999,
        },
        monitor: MonitoringConfig {
            sample_interval_ms: 10,
            log_enabled: true,
        },
    };

    let n = normalize_fan_data(bad);
    assert_eq!(n.control.strategy, "independent");
    assert_eq!(n.control.preset, "standard");
    assert!(n.control.ramp_up_step >= 1 && n.control.ramp_up_step <= 40);
    assert!(n.control.ramp_down_step >= 1 && n.control.ramp_down_step <= 30);
    assert!(n.control.min_speed <= 60);
    assert!(n.alerts.cpu.threshold >= 50);
    assert!(n.alerts.gpu.threshold <= 110);
    assert!(n.alerts.cpu.actions.confirm_times >= 1);
    assert!(n.alerts.gpu.actions.confirm_times <= 10);
    assert!(n.monitor.sample_interval_ms >= 500 && n.monitor.sample_interval_ms <= 1000);
    assert!(n.left_fan[0].temperature >= 1 && n.left_fan[0].temperature <= 110);
    assert!(n.left_fan[0].speed >= 0 && n.left_fan[0].speed <= 100);
}
