//! Monthly Indonesian withholding income tax (PPh 21).
//!
//! The crate maps a PTKP marital/dependent status to an effective-rate (TER)
//! category, looks the applicable rate up in the government bracket tables,
//! and computes the tax under the Gross and Gross-Up payment conventions.
//! Monetary amounts are whole rupiah; rates are carried in hundredths of a
//! percent so that every computation is exact integer arithmetic.

pub mod formatting;
pub mod input;
pub mod ptkp;
pub mod tax;
pub mod ter;
