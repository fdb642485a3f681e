//! Academic-performance calculator core: a fixed curriculum catalog, grade
//! validation, and the SPI / CPI weighted-average formulas.
//!
//! Scores (grades, SPI, CPI) are held in ten-thousandths of a grade point,
//! so the full 0..=10 scale is the integer range 0..=100_000.  Every
//! computation on that scale is exact integer arithmetic with a final
//! round-half-up division, so all results are pinned by the contracts.

pub mod functions;
pub mod semdata;
pub mod session;
