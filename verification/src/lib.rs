//! Clock-tree configuration for a microcontroller reset-and-clock-control
//! unit: selecting the system clock source (internal oscillator or PLL),
//! deriving bus clocks through prescalers, and choosing the memory
//! wait-state code that makes reads safe at the resulting core frequency.
//!
//! The register-level write sequence is a hardware boundary and lives
//! outside this library; here the frequency selection and bit-pattern
//! encoding are computed and proved against their specification.

pub mod rcc;
pub mod time;
