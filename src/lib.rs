//! Physical units written as short expressions ("MJ/Sm3", "km/h",
//! "kg*m2/s2"), resolved to a dimension vector and an exact scale relative to
//! SI base units, and converted between units of the same dimension.

mod chars;
pub mod dimension;
pub mod laws;
pub mod parser;
pub mod registry;
pub mod scale;
pub mod unit;
