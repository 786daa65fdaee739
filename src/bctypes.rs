use crate::tides::{ConstituentsConfig, SpaceVaryingTimeSeriesConfig, TidesConfig};
use vstd::prelude::*;

verus! {

/// An IEEE-754 binary64 value carried by its bit pattern. The library moves
/// such values along and never does arithmetic on them.
#[derive(Clone, Copy, Debug, PartialEq, Eq, Structural)]
pub struct FloatBits {
    pub bits: u64,
}

/// Values at instants, each instant in whole seconds since 1970-01-01T00:00:00Z.
#[derive(Debug)]
pub struct TimeSeries {
    pub points: Vec<(i64, FloatBits)>,
}

/// How a boundary variable is forced: the integer type code that the solver
/// reads for it.
pub trait Bctype {
    /// The type code of this configuration.
    spec fn spec_ibtype(&self) -> i8;

    /// The type code of this configuration.
    fn ibtype(&self) -> (r: i8)
        ensures
            r == self.spec_ibtype(),
    ;
}

/// Forcing of the surface elevation along one boundary segment.
#[derive(Debug)]
pub enum ElevationConfig {
    UniformTimeSeries(TimeSeries),
    ConstantValue(FloatBits),
    Tides(TidesConfig),
    SpaceVaryingTimeSeries(SpaceVaryingTimeSeriesConfig),
    TidesAndSpaceVaryingTimeSeries { tides: TidesConfig, time_series: SpaceVaryingTimeSeriesConfig },
    EqualToZero,
}

impl Bctype for ElevationConfig {
    open spec fn spec_ibtype(&self) -> i8 {
        match self {
            ElevationConfig::UniformTimeSeries(_) => 1i8,
            ElevationConfig::ConstantValue(_) => 2,
            ElevationConfig::Tides(_) => 3,
            ElevationConfig::SpaceVaryingTimeSeries(_) => 4,
            ElevationConfig::TidesAndSpaceVaryingTimeSeries { .. } => 5,
            ElevationConfig::EqualToZero => -1i8,
        }
    }

    fn ibtype(&self) -> (r: i8) {
        match self {
            ElevationConfig::UniformTimeSeries(_) => 1i8,
            ElevationConfig::ConstantValue(_) => 2,
            ElevationConfig::Tides(_) => 3,
            ElevationConfig::SpaceVaryingTimeSeries(_) => 4,
            ElevationConfig::TidesAndSpaceVaryingTimeSeries { .. } => 5,
            ElevationConfig::EqualToZero => -1i8,
        }
    }
}

impl ElevationConfig {
    /// The tidal constituents that this configuration forces, if it is tidal.
    pub open spec fn spec_tides(&self) -> Option<ConstituentsConfig> {
        match self {
            ElevationConfig::Tides(t) => Some(t.constituents),
            ElevationConfig::TidesAndSpaceVaryingTimeSeries { tides, .. } => Some(tides.constituents),
            _ => None,
        }
    }

    /// The tidal constituents that this configuration forces, if it is tidal.
    pub fn tides(&self) -> (r: Option<ConstituentsConfig>)
        ensures
            r == self.spec_tides(),
    {
        match self {
            ElevationConfig::Tides(t) => Some(t.constituents),
            ElevationConfig::TidesAndSpaceVaryingTimeSeries { tides, .. } => Some(tides.constituents),
            _ => None,
        }
    }
}

/// Forcing of the horizontal velocity along one boundary segment.
#[derive(Debug)]
pub enum VelocityConfig {
    UniformTimeSeries(TimeSeries),
    ConstantValue(FloatBits),
    Tides(TidesConfig),
    SpaceVaryingTimeSeries(SpaceVaryingTimeSeriesConfig),
    TidesAndSpaceVaryingTimeSeries { tides: TidesConfig, time_series: SpaceVaryingTimeSeriesConfig },
    Flather,
}

impl Bctype for VelocityConfig {
    open spec fn spec_ibtype(&self) -> i8 {
        match self {
            VelocityConfig::UniformTimeSeries(_) => 1i8,
            VelocityConfig::ConstantValue(_) => 2,
            VelocityConfig::Tides(_) => 3,
            VelocityConfig::SpaceVaryingTimeSeries(_) => 4,
            VelocityConfig::TidesAndSpaceVaryingTimeSeries { .. } => 5,
            VelocityConfig::Flather => -1i8,
        }
    }

    fn ibtype(&self) -> (r: i8) {
        match self {
            VelocityConfig::UniformTimeSeries(_) => 1i8,
            VelocityConfig::ConstantValue(_) => 2,
            VelocityConfig::Tides(_) => 3,
            VelocityConfig::SpaceVaryingTimeSeries(_) => 4,
            VelocityConfig::TidesAndSpaceVaryingTimeSeries { .. } => 5,
            VelocityConfig::Flather => -1i8,
        }
    }
}

impl VelocityConfig {
    /// The tidal constituents that this configuration forces, if it is tidal.
    pub open spec fn spec_tides(&self) -> Option<ConstituentsConfig> {
        match self {
            VelocityConfig::Tides(t) => Some(t.constituents),
            VelocityConfig::TidesAndSpaceVaryingTimeSeries { tides, .. } => Some(tides.constituents),
            _ => None,
        }
    }

    /// The tidal constituents that this configuration forces, if it is tidal.
    pub fn tides(&self) -> (r: Option<ConstituentsConfig>)
        ensures
            r == self.spec_tides(),
    {
        match self {
            VelocityConfig::Tides(t) => Some(t.constituents),
            VelocityConfig::TidesAndSpaceVaryingTimeSeries { tides, .. } => Some(tides.constituents),
            _ => None,
        }
    }
}

/// Forcing of the temperature along one boundary segment.
#[derive(Debug)]
pub enum TemperatureConfig {
    RelaxToUniformTimeSeries(TimeSeries),
    RelaxToConstantValue(FloatBits),
    RelaxToInitialConditions,
    RelaxToSpaceVaryingTimeSeries(SpaceVaryingTimeSeriesConfig),
}

impl Bctype for TemperatureConfig {
    open spec fn spec_ibtype(&self) -> i8 {
        match self {
            TemperatureConfig::RelaxToUniformTimeSeries(_) => 1i8,
            TemperatureConfig::RelaxToConstantValue(_) => 2,
            TemperatureConfig::RelaxToInitialConditions => 3,
            TemperatureConfig::RelaxToSpaceVaryingTimeSeries(_) => 4,
        }
    }

    fn ibtype(&self) -> (r: i8) {
        match self {
            TemperatureConfig::RelaxToUniformTimeSeries(_) => 1i8,
            TemperatureConfig::RelaxToConstantValue(_) => 2,
            TemperatureConfig::RelaxToInitialConditions => 3,
            TemperatureConfig::RelaxToSpaceVaryingTimeSeries(_) => 4,
        }
    }
}

/// Forcing of the salinity along one boundary segment.
#[derive(Debug)]
pub enum SalinityConfig {
    RelaxToUniformTimeSeries(TimeSeries),
    RelaxToConstantValue(FloatBits),
    RelaxToInitialConditions,
    RelaxToSpaceVaryingTimeSeries(SpaceVaryingTimeSeriesConfig),
}

impl Bctype for SalinityConfig {
    open spec fn spec_ibtype(&self) -> i8 {
        match self {
            SalinityConfig::RelaxToUniformTimeSeries(_) => 1i8,
            SalinityConfig::RelaxToConstantValue(_) => 2,
            SalinityConfig::RelaxToInitialConditions => 3,
            SalinityConfig::RelaxToSpaceVaryingTimeSeries(_) => 4,
        }
    }

    fn ibtype(&self) -> (r: i8) {
        match self {
            SalinityConfig::RelaxToUniformTimeSeries(_) => 1i8,
            SalinityConfig::RelaxToConstantValue(_) => 2,
            SalinityConfig::RelaxToInitialConditions => 3,
            SalinityConfig::RelaxToSpaceVaryingTimeSeries(_) => 4,
        }
    }
}

} // verus!
