use nuc_fan::constants::{CONFIG_FILE_NAME, MONITOR_LOG_FILE_NAME, MONITOR_LOG_HEADER, PROFILE_DIR_NAME};
use nuc_fan::fan_curve::curve_corrections;
use nuc_fan::output::monitor_log_line;
use nuc_fan::profiles::list_profile_names;
use nuc_fan::output::{beta_enables_autostart, wmi_return_code};
use nuc_fan::parse::{parse_hex_u64, parse_i64};
use nuc_fan::config::{normalize_fan_data, profile_file_name, sanitize_profile_name};
use nuc_fan::control::{
    apply_gpu_linkage, apply_strategy, apply_temperature_hysteresis, constant_speed_target,
    control_plan_defined_check, control_sleep_ms, effective_cpu_hysteresis,
    effective_cpu_max_percent, effective_gpu_max_percent, effective_min_speed,
    effective_speed_hysteresis, is_constant_mode, plan_control_step, plan_ramp_step,
    process_alerts, ramp_plan_defined_check, readings_valid, update_dynamic_mode, AlertEvents,
    ControlPlan, ControlState, RampPlan,
};
use nuc_fan::fan_curve::{curve_speed_fits_check, find_speed_for_temp, sanitize_curve};
use nuc_fan::mode_profiles::default_profile_curves;
use nuc_fan::models::{FanControlMode, FanData, FanPoint};
use nuc_fan::output::{
    first_model_code, model_code, monitor_sample, pwm_fan_raw, push_interval_ms,
    restart_wait_ms, wmi_fan_raw, MonitorSample,
};
use nuc_fan::ramp::{ramp_speed_internal, ramp_step_defined};
use nuc_fan::text::{str_eq_ignore_ascii_case, trim};

fn p(temperature: i32, speed: i32) -> FanPoint {
    FanPoint { temperature, speed }
}

fn curve_config(left: Vec<FanPoint>, right: Vec<FanPoint>) -> FanData {
    let mut d = FanData::default();
    d.left_fan = left;
    d.right_fan = right;
    d
}

#[test]
fn sanitize_sorts_clamps_and_keeps_first_of_equal_temperatures() {
    let c = vec![p(70, 50), p(40, 20), p(-5, 10), p(40, 99), p(200, 300), p(0, -7)];
    let r = sanitize_curve(&c, "left");
    assert_eq!(r, vec![p(1, 10), p(40, 20), p(70, 50), p(110, 100)]);
    assert_eq!(sanitize_curve(&r, "left"), r);
    assert!(sanitize_curve(&[], "left").is_empty());
}

#[test]
fn curve_speed_interpolates_and_is_flat_outside() {
    let c = vec![p(40, 20), p(60, 80), p(80, 100)];
    assert_eq!(find_speed_for_temp(&c, 30, "l"), Some(20));
    assert_eq!(find_speed_for_temp(&c, 40, "l"), Some(20));
    assert_eq!(find_speed_for_temp(&c, 50, "l"), Some(50));
    assert_eq!(find_speed_for_temp(&c, 60, "l"), Some(80));
    assert_eq!(find_speed_for_temp(&c, 70, "l"), Some(90));
    assert_eq!(find_speed_for_temp(&c, 95, "l"), Some(100));
    assert_eq!(find_speed_for_temp(&c, -40, "l"), Some(20));
    assert_eq!(find_speed_for_temp(&[], 50, "l"), None);
    // the speed truncates toward zero
    let d = vec![p(0, 0), p(3, 10)];
    assert_eq!(find_speed_for_temp(&d, 1, "l"), Some(3));
    assert!(curve_speed_fits_check(&c, 50));
    let extreme = vec![p(i32::MIN, i32::MIN), p(110, i32::MAX)];
    assert!(!curve_speed_fits_check(&extreme, 100));
}

#[test]
fn profile_names_are_checked() {
    assert_eq!(sanitize_profile_name("  quiet_1 \t"), Ok("quiet_1".to_string()));
    assert_eq!(sanitize_profile_name("   "), Err("配置名称不能为空".to_string()));
    assert_eq!(sanitize_profile_name(&"a".repeat(49)), Err("配置名称长度不能超过 48".to_string()));
    assert_eq!(sanitize_profile_name(&"a".repeat(48)), Ok("a".repeat(48)));
    assert_eq!(sanitize_profile_name("my profile"), Err("配置名称只能包含字母、数字、_、-".to_string()));
    assert_eq!(sanitize_profile_name("配置"), Err("配置名称只能包含字母、数字、_、-".to_string()));
    assert_eq!(sanitize_profile_name(&"配".repeat(17)), Err("配置名称长度不能超过 48".to_string()));
    assert_eq!(profile_file_name(" game-2 "), Ok("game-2.json".to_string()));
    assert_eq!(profile_file_name(""), Err("配置名称不能为空".to_string()));
}

#[test]
fn normalize_reads_legacy_presets_and_mode_caps() {
    let mut d = FanData::default();
    d.control.preset = "Gaming".to_string();
    d.control.strategy = "MIX_MAX".to_string();
    d.control.control_mode = "nonsense".to_string();
    d.control.constant_speed_enabled = true;
    d.control.constant_speed = 0;
    let n = normalize_fan_data(d);
    assert_eq!(n.control.mode, FanControlMode::Gaming);
    assert_eq!(n.control.preset, "performance");
    assert_eq!(n.control.strategy, "mix_max");
    assert_eq!(n.control.control_mode, "constant");
    assert_eq!(n.control.constant_speed, 60);
    assert_eq!(n.control.ramp_up_step, 15);
    assert_eq!(n.left_fan, default_profile_curves(&FanControlMode::Gaming).0);

    let mut s = FanData::default();
    s.control.mode = FanControlMode::Silent;
    s.control.cpu_fan_max_percent = 90;
    s.control.gpu_fan_max_percent = 5;
    s.control.gpu_linkage_threshold = 0;
    s.control.gpu_linkage_boost = -3;
    let n = normalize_fan_data(s);
    assert_eq!(n.control.preset, "silent");
    assert_eq!(n.control.cpu_fan_max_percent, 60);
    assert_eq!(n.control.gpu_fan_max_percent, 20);
    assert_eq!(n.control.gpu_linkage_threshold, 75);
    assert_eq!(n.control.gpu_linkage_boost, 10);

    let mut c = FanData::default();
    c.control.mode = FanControlMode::Custom;
    c.control.cpu_fan_max_percent = 150;
    let n = normalize_fan_data(c);
    assert_eq!(n.control.cpu_fan_max_percent, 100);
}

#[test]
fn normalize_twice_changes_nothing() {
    let mut d = FanData::default();
    d.left_fan = vec![p(90, 100), p(30, 10), p(30, 50)];
    d.control.strategy = "Cpu_Only".to_string();
    d.control.ramp_down_step = 77;
    d.alerts.recover_delta = -4;
    let once = normalize_fan_data(d);
    let left = once.left_fan.clone();
    let strategy = once.control.strategy.clone();
    let step = once.control.ramp_down_step;
    let alerts = once.alerts;
    let twice = normalize_fan_data(once);
    assert_eq!(twice.left_fan, left);
    assert_eq!(twice.control.strategy, strategy);
    assert_eq!(twice.control.ramp_down_step, step);
    assert_eq!(twice.alerts, alerts);
    assert_eq!(left, vec![p(30, 10), p(90, 100)]);
}

#[test]
fn ramp_step_limits_and_undefined_ranges() {
    assert_eq!(ramp_speed_internal(40, 90, 15, 5, 20), 55);
    assert_eq!(ramp_speed_internal(40, 0, 15, 5, 20), 0);
    assert_eq!(ramp_speed_internal(40, 30, 15, 5, 20), 35);
    assert_eq!(ramp_speed_internal(40, 40, 15, 5, 20), 40);
    assert_eq!(ramp_speed_internal(0, 0, 15, 5, 20), 0);
    assert!(ramp_step_defined(40, 30, 15, 5, 20));
    assert!(!ramp_step_defined(15, 5, 10, 10, 20));
    assert!(!ramp_step_defined(10, 90, i64::MAX, 10, 20));
}

#[test]
fn settings_in_effect() {
    let mut d = FanData::default();
    assert_eq!(effective_cpu_max_percent(&d, FanControlMode::Silent), 60);
    d.control.cpu_fan_max_percent = 10;
    assert_eq!(effective_cpu_max_percent(&d, FanControlMode::Office), 20);
    d.control.gpu_fan_max_percent = 95;
    assert_eq!(effective_gpu_max_percent(&d, FanControlMode::Office), 80);
    assert_eq!(effective_gpu_max_percent(&d, FanControlMode::Custom), 95);
    assert_eq!(effective_cpu_hysteresis(&d, FanControlMode::Silent), 5);
    d.control.cpu_hysteresis_bandwidth = 30;
    assert_eq!(effective_cpu_hysteresis(&d, FanControlMode::Silent), 12);
    d.control.cpu_hysteresis_bandwidth = 1;
    d.control.gpu_hysteresis_bandwidth = 2;
    assert_eq!(effective_speed_hysteresis(&d, FanControlMode::Silent), 5);
    assert_eq!(effective_speed_hysteresis(&d, FanControlMode::Performance), 2);

    d.control.zero_rpm_enabled = true;
    d.control.zero_rpm_threshold = 45;
    assert_eq!(effective_min_speed(&d.control, 45), 0);
    assert_eq!(effective_min_speed(&d.control, 46), 20);

    d.control.control_mode = "CONSTANT".to_string();
    assert!(is_constant_mode(&d.control));
    d.control.constant_speed = 130;
    assert_eq!(constant_speed_target(&d.control), 100);
    assert!(readings_valid(1, 110));
    assert!(!readings_valid(0, 50));
    assert_eq!(control_sleep_ms(&d), 1000);
}

#[test]
fn target_shaping() {
    let mut anchor = 0;
    assert_eq!(apply_temperature_hysteresis(60, 40, 50, &mut anchor, 4), 40);
    assert_eq!(anchor, 60);
    assert_eq!(apply_temperature_hysteresis(57, 30, 50, &mut anchor, 4), 50);
    assert_eq!(anchor, 60);
    assert_eq!(apply_temperature_hysteresis(55, 30, 50, &mut anchor, 4), 30);
    assert_eq!(anchor, 55);
    assert_eq!(apply_temperature_hysteresis(58, 45, 30, &mut anchor, 4), 45);
    assert_eq!(anchor, 58);

    let mut d = FanData::default();
    d.control.gpu_linkage_enabled = true;
    d.control.gpu_linkage_threshold = 70;
    d.control.gpu_linkage_boost = 15;
    let (mut l, mut r) = (40, 30);
    apply_gpu_linkage(&d.control, 69, &mut l, &mut r);
    assert_eq!((l, r), (40, 30));
    apply_gpu_linkage(&d.control, 70, &mut l, &mut r);
    assert_eq!((l, r), (55, 55));
    let (mut l, mut r) = (95, 20);
    apply_gpu_linkage(&d.control, 90, &mut l, &mut r);
    assert_eq!((l, r), (100, 100));

    for (strategy, expected) in [("mix_max", (70, 70)), ("cpu_only", (30, 30)), ("gpu_only", (70, 70)), ("independent", (30, 70)), ("MIX_MAX", (30, 70))] {
        d.control.strategy = strategy.to_string();
        let (mut l, mut r) = (30, 70);
        apply_strategy(&d.control, 50, 50, &mut l, &mut r);
        assert_eq!((l, r), expected, "{}", strategy);
    }
}

#[test]
fn office_mode_follows_the_load() {
    let mut d = FanData::default();
    d.monitor.sample_interval_ms = 500;
    d.control.gpu_linkage_threshold = 75;
    let mut s = ControlState::new(FanControlMode::Office);
    for _ in 0..5 {
        assert!(!update_dynamic_mode(&d, &mut s, 60, 80));
    }
    assert_eq!(s.active_mode, FanControlMode::Office);
    assert!(update_dynamic_mode(&d, &mut s, 60, 80));
    assert_eq!(s.active_mode, FanControlMode::Gaming);
    // a single cool sample does not return to Office
    assert!(!update_dynamic_mode(&d, &mut s, 30, 50));
    assert_eq!(s.active_mode, FanControlMode::Gaming);
    for _ in 0..358 {
        update_dynamic_mode(&d, &mut s, 30, 50);
    }
    assert_eq!(s.active_mode, FanControlMode::Gaming);
    assert!(update_dynamic_mode(&d, &mut s, 30, 50));
    assert_eq!(s.active_mode, FanControlMode::Office);

    d.control.mode = FanControlMode::Silent;
    assert!(!update_dynamic_mode(&d, &mut s, 30, 90));
    assert_eq!(s.active_mode, FanControlMode::Silent);
}

#[test]
fn alerts_need_confirmation() {
    let mut d = FanData::default();
    d.alerts.cpu.threshold = 90;
    d.alerts.cpu.actions.confirm_times = 2;
    d.alerts.cpu.actions.force_shutdown = true;
    d.alerts.recover_delta = 5;
    let mut s = ControlState::new(FanControlMode::Office);
    let none = AlertEvents { cpu_raised: false, gpu_raised: false, cpu_recovered: false, gpu_recovered: false };
    assert_eq!(process_alerts(&d, &mut s, 92, 50), none);
    assert!(!s.cpu_alert_active);
    let ev = process_alerts(&d, &mut s, 91, 50);
    assert!(ev.cpu_raised);
    assert!(s.cpu_alert_active && s.force_max_fan);
    assert_eq!(process_alerts(&d, &mut s, 87, 50), none);
    assert!(s.cpu_alert_active);
    assert_eq!(process_alerts(&d, &mut s, 85, 50), none);
    let ev = process_alerts(&d, &mut s, 80, 50);
    assert!(ev.cpu_recovered);
    assert!(!s.cpu_alert_active && !s.force_max_fan);
}

fn plan_config() -> FanData {
    let mut d = curve_config(vec![p(40, 20), p(60, 80)], vec![p(40, 30), p(60, 50)]);
    d.control.cpu_fan_max_percent = 100;
    d.control.gpu_fan_max_percent = 100;
    d.control.mode = FanControlMode::Custom;
    d
}

#[test]
fn control_step_plans() {
    let d = plan_config();
    let mut s = ControlState::new(FanControlMode::Custom);
    assert!(control_plan_defined_check(&d, &s, 50, 50, 50, 50));
    // first step takes the fans over at the curve targets
    assert_eq!(plan_control_step(&d, &mut s, 50, 50, 50, 50, false), ControlPlan::TakeOver { left: 50, right: 40 });
    assert_eq!(s.fan_cache, [50, 40]);
    // next step hands the targets on for smoothing
    assert_eq!(plan_control_step(&d, &mut s, 55, 55, 55, 55, false), ControlPlan::Smooth { left: 65, right: 45 });
    assert_eq!(s.fan_cache, [50, 40]);
    // emergency
    assert_eq!(plan_control_step(&d, &mut s, 96, 50, 60, 50, false), ControlPlan::Emergency { write: true });
    assert_eq!(s.fan_cache, [100, 100]);
    assert_eq!(plan_control_step(&d, &mut s, 97, 50, 60, 50, false), ControlPlan::Emergency { write: false });
    // after the emergency the fans are taken over afresh
    assert_eq!(plan_control_step(&d, &mut s, 50, 50, 50, 50, false), ControlPlan::TakeOver { left: 50, right: 40 });
    // the firmware took the fans back
    assert_eq!(plan_control_step(&d, &mut s, 50, 50, 50, 50, true), ControlPlan::TakeOver { left: 50, right: 40 });

    let mut c = plan_config();
    c.control.constant_speed_enabled = true;
    c.control.constant_speed = 45;
    let mut s = ControlState::new(FanControlMode::Custom);
    assert_eq!(plan_control_step(&c, &mut s, 50, 50, 50, 50, false), ControlPlan::ConstantSpeed { target: 45, write: true });
    assert_eq!(plan_control_step(&c, &mut s, 50, 50, 50, 50, false), ControlPlan::ConstantSpeed { target: 45, write: false });

    let e = curve_config(vec![], vec![p(40, 30)]);
    let mut s = ControlState::new(FanControlMode::Office);
    assert_eq!(plan_control_step(&e, &mut s, 50, 50, 50, 50, false), ControlPlan::MissingCurve { left: true });
}

#[test]
fn ramp_step_plans() {
    let d = plan_config();
    let mut s = ControlState::new(FanControlMode::Custom);
    s.fan_cache = [50, 40];
    assert!(ramp_plan_defined_check(&d, &s, 55, 55, 55, 55, 52, 41, 55, 55));
    assert_eq!(plan_ramp_step(&d, &mut s, 55, 55, 55, 55, 52, 41, 55, 55), RampPlan::WithinBand);
    assert_eq!(plan_ramp_step(&d, &mut s, 55, 55, 55, 55, 80, 41, 55, 55), RampPlan::Write { left: 60, right: 41 });
    assert_eq!(s.fan_cache, [60, 41]);
    // a temperature jump allows the fast step
    let mut j = ControlState::new(FanControlMode::Custom);
    j.fan_cache = [50, 40];
    assert_eq!(plan_ramp_step(&d, &mut j, 70, 55, 60, 55, 95, 40, 60, 55), RampPlan::Write { left: 80, right: 40 });
}

#[test]
fn output_values() {
    assert_eq!(wmi_fan_raw(37), 74);
    assert_eq!(wmi_fan_raw(-3), 0);
    assert_eq!(pwm_fan_raw(50), 127);
    assert_eq!(pwm_fan_raw(-10), 0);
    assert_eq!(pwm_fan_raw(1000), 255);
    assert_eq!(
        monitor_sample(-4, 130, 9000, 1200),
        MonitorSample { cpu_temp: 0, gpu_temp: 110, cpu_fan_rpm: 7000, gpu_fan_rpm: 1200 }
    );
    assert_eq!(push_interval_ms(), 2500);
    assert_eq!(restart_wait_ms(200), 2500);
    assert_eq!(model_code("LAPAC71H"), 1);
    assert_eq!(model_code("LAPKC71F"), 0);
    assert_eq!(first_model_code(&vec![]), 0);
    assert_eq!(first_model_code(&vec!["LAPAC71H".to_string(), "X".to_string()]), 1);
}

#[test]
fn text_helpers() {
    assert!(str_eq_ignore_ascii_case("Constant", "cONSTANT"));
    assert!(!str_eq_ignore_ascii_case("constant", "constan"));
    assert!(!str_eq_ignore_ascii_case("ÄB", "äb"));
    assert_eq!(trim("\u{3000} name \n"), "name");
    assert_eq!(trim(" \t "), "");
}

#[test]
fn number_parsing() {
    assert_eq!(parse_i64("0"), Some(0));
    assert_eq!(parse_i64("+17"), Some(17));
    assert_eq!(parse_i64("-42"), Some(-42));
    assert_eq!(parse_i64("9223372036854775807"), Some(i64::MAX));
    assert_eq!(parse_i64("-9223372036854775808"), Some(i64::MIN));
    assert_eq!(parse_i64("9223372036854775808"), None);
    assert_eq!(parse_i64("-9223372036854775809"), None);
    assert_eq!(parse_i64(""), None);
    assert_eq!(parse_i64("-"), None);
    assert_eq!(parse_i64("+"), None);
    assert_eq!(parse_i64(" 1"), None);
    assert_eq!(parse_i64("1a"), None);
    assert_eq!(parse_i64("0000000000000000000000000012"), Some(12));
    for s in ["0", "-0", "+5", "123456", "-99999", "12x", "", "--1", "99999999999999999999"] {
        assert_eq!(parse_i64(s), s.parse::<i64>().ok(), "{}", s);
    }
    assert_eq!(parse_hex_u64("0000000000C81809"), Some(0xC81809));
    assert_eq!(parse_hex_u64("ff"), Some(255));
    assert_eq!(parse_hex_u64("+Ab"), Some(0xAB));
    assert_eq!(parse_hex_u64("FFFFFFFFFFFFFFFF"), Some(u64::MAX));
    assert_eq!(parse_hex_u64("10000000000000000"), None);
    assert_eq!(parse_hex_u64("-1"), None);
    assert_eq!(parse_hex_u64("g"), None);
    assert_eq!(parse_hex_u64(""), None);
    for s in ["0", "+1f", "DEADbeef", "x", "+", "123456789abcdef0", "1_0"] {
        assert_eq!(parse_hex_u64(s), u64::from_str_radix(s, 16).ok(), "{}", s);
    }
    assert_eq!(beta_enables_autostart("1"), Some(true));
    assert_eq!(beta_enables_autostart("0"), Some(false));
    assert_eq!(beta_enables_autostart("yes"), None);
    assert_eq!(wmi_return_code("2"), 2);
    assert_eq!(wmi_return_code("oops"), -1);
}

#[test]
fn text_helpers_agree_with_std() {
    let samples = [
        "", " ", "a", " a ", "\t\nname\u{2003}", "\u{85}x\u{a0}", "\u{200b}x", "İndependent",
        "independent", "INDEPENDENT", "Mix_Max", "\u{212a}", "配置 ",
    ];
    for s in samples {
        assert_eq!(trim(s), s.trim(), "{:?}", s);
        for t in ["k", "independent", "mix_max", "constant"] {
            assert_eq!(str_eq_ignore_ascii_case(s, t), s.eq_ignore_ascii_case(t), "{:?} {:?}", s, t);
        }
        // for keywords without a `k`, matching up to ASCII case is matching the lower-cased text
        for t in ["independent", "mix_max", "cpu_only", "gpu_only", "silent", "performance", "gaming", "fullspeed", "custom", "curve", "constant"] {
            assert_eq!(str_eq_ignore_ascii_case(s, t), s.to_lowercase() == t, "{:?} {:?}", s, t);
        }
    }
}

#[test]
fn corrections_are_reported() {
    let c = vec![p(-5, 10), p(40, 20), p(200, 300), p(50, -1)];
    assert_eq!(
        curve_corrections(&c),
        vec![(p(-5, 10), p(1, 10)), (p(200, 300), p(110, 100)), (p(50, -1), p(50, 0))]
    );
    assert!(curve_corrections(&[p(40, 20)]).is_empty());
}

#[test]
fn profile_names_are_filtered_and_sorted() {
    let s = |x: &str| Some(x.to_string());
    let entries = vec![
        (s("json"), s("zeta")),
        (s("txt"), s("notes")),
        (s("json"), s("Alpha")),
        (None, s("README")),
        (s("JSON"), s("upper")),
        (s("json"), None),
        (s("json"), s("alpha")),
        (s("json"), s("al")),
    ];
    assert_eq!(
        list_profile_names(&entries),
        vec!["Alpha".to_string(), "al".to_string(), "alpha".to_string(), "zeta".to_string()]
    );
    assert!(list_profile_names(&vec![]).is_empty());
}

#[test]
fn monitor_log_lines() {
    let sample = monitor_sample(-4, 130, 9000, 1200);
    assert_eq!(
        monitor_log_line(1700000000, &sample, "independent", "standard", FanControlMode::Office),
        "1700000000,0,110,7000,1200,independent,standard,office"
    );
    let neg = MonitorSample { cpu_temp: -12, gpu_temp: i64::MIN, cpu_fan_rpm: 0, gpu_fan_rpm: 9 };
    assert_eq!(
        monitor_log_line(0, &neg, "a", "b", FanControlMode::Gaming),
        format!("0,-12,{},0,9,a,b,gaming", i64::MIN)
    );
    assert_eq!(MONITOR_LOG_HEADER, "timestamp,cpu_temp,gpu_temp,cpu_fan_rpm,gpu_fan_rpm,strategy,preset,mode");
    assert_eq!(CONFIG_FILE_NAME, "fan_config.json");
    assert_eq!(PROFILE_DIR_NAME, "profiles");
    assert_eq!(MONITOR_LOG_FILE_NAME, "monitor_log.csv");
}

#[test]
fn alert_runs_raise_and_clear_at_the_confirmation_count() {
    let mut d = FanData::default();
    d.alerts.cpu.threshold = 90;
    d.alerts.cpu.actions.confirm_times = 3;
    d.alerts.recover_delta = 5;
    let mut s = ControlState::new(FanControlMode::Office);
    let mut raised_at = vec![];
    for call in 1..=6 {
        let ev = process_alerts(&d, &mut s, 90 + call, 50);
        if ev.cpu_raised {
            raised_at.push(call);
        }
        assert_eq!(s.cpu_alert_active, call >= 3);
    }
    assert_eq!(raised_at, vec![3]);
    // a reading between the recovery level and the threshold resets the counts, keeps the flag
    process_alerts(&d, &mut s, 87, 50);
    assert!(s.cpu_alert_active);
    assert_eq!((s.alert_cpu_high_count, s.alert_cpu_recover_count), (0, 0));
    let mut cleared_at = vec![];
    for call in 1..=5 {
        let ev = process_alerts(&d, &mut s, 85 - call, 50);
        if ev.cpu_recovered {
            cleared_at.push(call);
        }
        assert_eq!(s.cpu_alert_active, call < 3);
    }
    assert_eq!(cleared_at, vec![3]);
}
