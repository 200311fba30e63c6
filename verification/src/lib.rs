//! Verified core of a Linux slowdown monitor: metric thresholds, SMART
//! output parsing, metric availability warnings and actionable
//! recommendations.
//!
//! Fractional quantities are carried as fixed-point integers:
//! percentages in hundredths of a percent, temperatures in thousandths of a
//! degree Celsius and uptimes in hundredths of a second.

pub mod text;
pub mod availability;
pub mod cli;
pub mod recommendations;
pub mod smart;
pub mod temperature;
pub mod thresholds;
