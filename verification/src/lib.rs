//! Numeric core of a small software ray tracer: exact RGB color
//! quantization and the deterministic pipeline that renders a red/green
//! gradient image in a line-oriented plain-text format.

pub mod color;
pub mod decimal;
pub mod image;
