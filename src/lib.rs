//! Open-boundary tidal forcing for a coastal-ocean model: the constituent
//! catalog, the selection of constituents per boundary variable, their
//! aggregation over the open boundary segments of a mesh, and the layout of
//! the forcing file.

pub mod bctides;
pub mod bctypes;
pub mod constituent;
pub mod date;
pub mod file_deck;
pub mod flags;
pub mod forcing;
pub mod options;
pub mod ordered_set;
pub mod text;
pub mod tidefac;
pub mod tides;

pub use bctypes::{ElevationConfig, SalinityConfig, TemperatureConfig, VelocityConfig};
pub use tidefac::tidefac;
