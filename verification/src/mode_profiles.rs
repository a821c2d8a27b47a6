use vstd::prelude::*;

use crate::models::{FanControlMode, FanPoint};

verus! {

/// Cap of the CPU fan duty in a mode.
pub open spec fn cpu_cap_of(m: FanControlMode) -> i64 {
    match m {
        FanControlMode::Silent => 60,
        FanControlMode::Office => 80,
        FanControlMode::Gaming => 100,
        FanControlMode::Performance => 100,
        FanControlMode::Custom => 100,
    }
}

/// Cap of the GPU fan duty in a mode.
pub open spec fn gpu_cap_of(m: FanControlMode) -> i64 {
    match m {
        FanControlMode::Silent => 60,
        FanControlMode::Office => 80,
        FanControlMode::Gaming => 100,
        FanControlMode::Performance => 100,
        FanControlMode::Custom => 100,
    }
}

/// Temperature hysteresis band of a mode, in degrees.
pub open spec fn hysteresis_of(m: FanControlMode) -> i64 {
    match m {
        FanControlMode::Silent => 5,
        FanControlMode::Office => 4,
        FanControlMode::Gaming => 3,
        FanControlMode::Performance => 2,
        FanControlMode::Custom => 3,
    }
}

/// Ramp step of a mode, in percent per control step.
pub open spec fn ramp_step_of(m: FanControlMode) -> i64 {
    match m {
        FanControlMode::Silent => 5,
        FanControlMode::Office => 8,
        FanControlMode::Gaming => 15,
        FanControlMode::Performance => 30,
        FanControlMode::Custom => 10,
    }
}

pub open spec fn pt(t: i32, s: i32) -> FanPoint {
    FanPoint { temperature: t, speed: s }
}

/// Built-in CPU curve of a mode.
pub open spec fn default_left_curve(m: FanControlMode) -> Seq<FanPoint> {
    match m {
        FanControlMode::Silent => seq![pt(40, 0), pt(55, 25), pt(70, 45), pt(85, 70), pt(95, 100)],
        FanControlMode::Gaming => seq![pt(40, 30), pt(55, 50), pt(70, 70), pt(80, 90), pt(90, 100)],
        FanControlMode::Performance => seq![pt(30, 100), pt(100, 100)],
        _ => seq![pt(40, 20), pt(55, 35), pt(70, 55), pt(85, 80), pt(95, 100)],
    }
}

/// Built-in GPU curve of a mode.
pub open spec fn default_right_curve(m: FanControlMode) -> Seq<FanPoint> {
    match m {
        FanControlMode::Silent => seq![pt(40, 0), pt(60, 30), pt(75, 50), pt(85, 75), pt(95, 100)],
        FanControlMode::Gaming => seq![pt(40, 30), pt(60, 55), pt(70, 75), pt(80, 90), pt(90, 100)],
        FanControlMode::Performance => seq![pt(30, 100), pt(100, 100)],
        _ => seq![pt(40, 20), pt(60, 40), pt(75, 60), pt(85, 80), pt(95, 100)],
    }
}

pub fn default_cpu_fan_max_for_mode(mode: &FanControlMode) -> (r: i64)
    ensures
        r == cpu_cap_of(*mode),
{
    match mode {
        FanControlMode::Silent => 60,
        FanControlMode::Office => 80,
        FanControlMode::Gaming => 100,
        FanControlMode::Performance => 100,
        FanControlMode::Custom => 100,
    }
}

pub fn default_gpu_fan_max_for_mode(mode: &FanControlMode) -> (r: i64)
    ensures
        r == gpu_cap_of(*mode),
{
    match mode {
        FanControlMode::Silent => 60,
        FanControlMode::Office => 80,
        FanControlMode::Gaming => 100,
        FanControlMode::Performance => 100,
        FanControlMode::Custom => 100,
    }
}

pub fn default_hysteresis_for_mode(mode: &FanControlMode) -> (r: i64)
    ensures
        r == hysteresis_of(*mode),
{
    match mode {
        FanControlMode::Silent => 5,
        FanControlMode::Office => 4,
        FanControlMode::Gaming => 3,
        FanControlMode::Performance => 2,
        FanControlMode::Custom => 3,
    }
}

pub fn default_ramp_step_for_mode(mode: &FanControlMode) -> (r: i64)
    ensures
        r == ramp_step_of(*mode),
{
    match mode {
        FanControlMode::Silent => 5,
        FanControlMode::Office => 8,
        FanControlMode::Gaming => 15,
        FanControlMode::Performance => 30,
        FanControlMode::Custom => 10,
    }
}

/// The built-in (CPU, GPU) curves of a mode.
pub fn default_profile_curves(mode: &FanControlMode) -> (r: (Vec<FanPoint>, Vec<FanPoint>))
    ensures
        r.0@ == default_left_curve(*mode),
        r.1@ == default_right_curve(*mode),
{
    match mode {
        FanControlMode::Silent => (
            vec![
                FanPoint { temperature: 40, speed: 0 },
                FanPoint { temperature: 55, speed: 25 },
                FanPoint { temperature: 70, speed: 45 },
                FanPoint { temperature: 85, speed: 70 },
                FanPoint { temperature: 95, speed: 100 },
            ],
            vec![
                FanPoint { temperature: 40, speed: 0 },
                FanPoint { temperature: 60, speed: 30 },
                FanPoint { temperature: 75, speed: 50 },
                FanPoint { temperature: 85, speed: 75 },
                FanPoint { temperature: 95, speed: 100 },
            ],
        ),
        FanControlMode::Gaming => (
            vec![
                FanPoint { temperature: 40, speed: 30 },
                FanPoint { temperature: 55, speed: 50 },
                FanPoint { temperature: 70, speed: 70 },
                FanPoint { temperature: 80, speed: 90 },
                FanPoint { temperature: 90, speed: 100 },
            ],
            vec![
                FanPoint { temperature: 40, speed: 30 },
                FanPoint { temperature: 60, speed: 55 },
                FanPoint { temperature: 70, speed: 75 },
                FanPoint { temperature: 80, speed: 90 },
                FanPoint { temperature: 90, speed: 100 },
            ],
        ),
        FanControlMode::Performance => (
            vec![FanPoint { temperature: 30, speed: 100 }, FanPoint { temperature: 100, speed: 100 }],
            vec![FanPoint { temperature: 30, speed: 100 }, FanPoint { temperature: 100, speed: 100 }],
        ),
        _ => (
            vec![
                FanPoint { temperature: 40, speed: 20 },
                FanPoint { temperature: 55, speed: 35 },
                FanPoint { temperature: 70, speed: 55 },
                FanPoint { temperature: 85, speed: 80 },
                FanPoint { temperature: 95, speed: 100 },
            ],
            vec![
                FanPoint { temperature: 40, speed: 20 },
                FanPoint { temperature: 60, speed: 40 },
                FanPoint { temperature: 75, speed: 60 },
                FanPoint { temperature: 85, speed: 80 },
                FanPoint { temperature: 95, speed: 100 },
            ],
        ),
    }
}

} // verus!
