pub mod constants;
pub mod models;
pub mod mode_profiles;
pub mod num;
pub mod fan_curve;
pub mod ramp;
pub mod text;
pub mod config;
pub mod control;
pub mod output;
pub mod parse;
pub mod profiles;
