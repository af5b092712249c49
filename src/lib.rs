pub mod text;
pub mod model;
pub mod error;
pub mod indicator;
pub mod params;
pub mod config;
pub mod signal_input;
pub mod signal_model;
pub mod backtest;
pub mod strategy;
