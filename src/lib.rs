//! Physical-unit conversion: a line such as `10 km to m` is scanned and parsed
//! into a conversion request over a five-component dimension algebra, then
//! planned into the scale factors that give the converted value.

pub mod text;
pub mod dim;
pub mod catalog;
pub mod parse;
pub mod convert;
pub mod diagnostic;
pub mod laws;
pub mod repl;
