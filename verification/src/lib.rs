//! Physical quantities that remember the unit they were given in, and the
//! classification of stars by spectral type that is built on them.
pub mod decimal;
pub mod length;
pub mod mass;
pub mod power;
pub mod star;
pub mod temperature;
pub mod text;
