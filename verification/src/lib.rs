//! Configuration, validation and result-shaping layer for Apache DataSketches
//! sketch families (HLL, Theta, CPC and Tuple).

pub mod cpc;
pub mod error;
pub mod hll;
pub mod text;
pub mod theta;
pub mod tuple;

pub use error::SketchError;
