//! Verified core of a financial charting library: chart and study
//! enumerations, timeframes, formatting helpers and the script lexer.

pub mod model;
pub mod scales;
pub mod scripting;
pub mod text;
