//! Household solar accounting: turns pairs of dated inverter/meter readings
//! into per-day energy deltas, self-consumption fractions and monetary
//! savings, and keeps readings in a small SQLite-backed store.
//!
//! All quantities are fixed-point integers: energies in thousandths of a
//! kilowatt-hour, tariffs in millionths of a currency unit per kilowatt-hour,
//! savings in billionths of a currency unit, and fractions in parts per
//! million.

/// Calendar dates and their arithmetic.
pub mod dates;

/// Readings from the inverter and the meter, and per-day changes.
pub mod readings;

/// Savings and self-consumption statistics.
pub mod calc;

/// Decimal text: rendering and parsing of fixed-point numbers.
pub mod text;

/// Human-readable report for a calculation.
pub mod report;

/// The SQLite-backed store of readings.
pub mod database;
