//! Capability interfaces: one per measurable physical quantity that a device
//! may or may not support, and a generic adapter that forwards capability
//! calls to whatever device implements them.
//!
//! Returning `None` is the sole and correct signal that the underlying
//! device is absent from this board; it never means a transient read error.

use vstd::prelude::*;

verus! {

/// A particulate-matter sensor measures the floating particles in the air.
pub trait ParticulateMatter {
    /// A measurement of PM10 coarse dust pollution, in micrograms per cubic
    /// metre, or `None` when the device is absent.
    fn pm10(&mut self) -> Option<u16>;

    /// A measurement of PM2.5 fine dust pollution, in micrograms per cubic
    /// metre, or `None` when the device is absent.
    fn pm25(&mut self) -> Option<u16>;
}

/// A humidity sensor measures relative humidity of the environment.
pub trait Humidity {
    /// The measured humidity in tenths of a percent, or `None` when the
    /// device is absent.
    fn humidity(&mut self) -> Option<u16>;
}

/// A temperature sensor measures temperature of the environment.
pub trait Temperature {
    /// The measured temperature in tenths of a degree Celsius, or `None`
    /// when the device is absent.
    fn temperature(&mut self) -> Option<i16>;
}

/// A pressure sensor measures air or liquid pressure in the environment.
pub trait Pressure {
    /// The measured pressure in Pascals, or `None` when the device is
    /// absent.
    fn pressure(&mut self) -> Option<u32>;
}

/// A zero-overhead forwarding adapter: `Sensor(device)` exposes the same
/// operation names as the capability traits and delegates each to the
/// wrapped device's implementation of the trait it satisfies. It is
/// constructible for a device with any subset of the capabilities; calling
/// a capability the device lacks does not compile.
pub struct Sensor<D>(pub D);

impl<D: ParticulateMatter> ParticulateMatter for Sensor<D> {
    fn pm10(&mut self) -> Option<u16> {
        self.0.pm10()
    }

    fn pm25(&mut self) -> Option<u16> {
        self.0.pm25()
    }
}

impl<D: Humidity> Humidity for Sensor<D> {
    fn humidity(&mut self) -> Option<u16> {
        self.0.humidity()
    }
}

impl<D: Temperature> Temperature for Sensor<D> {
    fn temperature(&mut self) -> Option<i16> {
        self.0.temperature()
    }
}

impl<D: Pressure> Pressure for Sensor<D> {
    fn pressure(&mut self) -> Option<u32> {
        self.0.pressure()
    }
}

} // verus!
