//! The device composer: fallible bring-up of each optional sensor, with
//! per-device degradation. A device whose initialization failed leaves its
//! slot permanently absent — its bus handle was consumed by the attempt —
//! while every other slot is untouched, and the board as a whole comes up.

use vstd::prelude::*;

use crate::sensor::{Humidity, ParticulateMatter, Pressure, Temperature};

verus! {

/// A slot that holds either an initialized driver or nothing, after the
/// driver's bring-up failed. Once absent it is never retried: a fresh
/// bring-up would need the owning bus handle back, and that was consumed.
pub enum OptionalDevice<D> {
    Present(D),
    Absent,
}

/// The slot that a bring-up outcome produces: the driver on success,
/// nothing on failure.
pub open spec fn slot_of<D, E>(init: Result<D, E>) -> OptionalDevice<D> {
    match init {
        Ok(d) => OptionalDevice::Present(d),
        Err(_) => OptionalDevice::Absent,
    }
}

impl<D> OptionalDevice<D> {
    /// Turn one device's bring-up outcome into its slot. The error is
    /// dropped here: it has been reported, and the bus it came from cannot
    /// be reclaimed.
    pub fn from_init<E>(init: Result<D, E>) -> (r: Self)
        ensures
            r == slot_of(init),
    {
        match init {
            Ok(d) => OptionalDevice::Present(d),
            Err(_) => OptionalDevice::Absent,
        }
    }

    /// Whether the slot holds an initialized driver.
    pub fn present(&self) -> (b: bool)
        ensures
            b == (self is Present),
    {
        match self {
            OptionalDevice::Present(_) => true,
            OptionalDevice::Absent => false,
        }
    }
}

/// The board's sensor aggregate: one slot for the particulate-matter
/// device on its serial bus, one for the environmental device on its I2C
/// bus. Each slot is populated if and only if that device's own
/// initialization succeeded.
pub struct Sensors<P, E> {
    pm: OptionalDevice<P>,
    env: OptionalDevice<E>,
}

impl<P, E> Sensors<P, E> {
    /// The particulate-matter slot.
    pub closed spec fn pm_slot(&self) -> OptionalDevice<P> {
        self.pm
    }

    /// The environmental slot.
    pub closed spec fn env_slot(&self) -> OptionalDevice<E> {
        self.env
    }

    /// Whether the particulate-matter device came up.
    pub open spec fn pm_present(&self) -> bool {
        self.pm_slot() is Present
    }

    /// Whether the environmental device came up.
    pub open spec fn env_present(&self) -> bool {
        self.env_slot() is Present
    }

    /// Assemble the aggregate from the two slots.
    pub fn new(pm: OptionalDevice<P>, env: OptionalDevice<E>) -> (r: Self)
        ensures
            r.pm_slot() == pm,
            r.env_slot() == env,
    {
        Sensors { pm, env }
    }
}

impl<P: ParticulateMatter, E> ParticulateMatter for Sensors<P, E> {
    /// Forward to the particulate-matter device when it is present. An
    /// absent device answers `None`, stays absent, and leaves the other
    /// slot alone.
    fn pm10(&mut self) -> (r: Option<u16>)
        ensures
            !old(self).pm_present() ==> r is None,
            final(self).pm_present() == old(self).pm_present(),
            final(self).env_slot() == old(self).env_slot(),
    {
        match &mut self.pm {
            OptionalDevice::Present(d) => d.pm10(),
            OptionalDevice::Absent => None,
        }
    }

    /// Forward to the particulate-matter device when it is present. An
    /// absent device answers `None`, stays absent, and leaves the other
    /// slot alone.
    fn pm25(&mut self) -> (r: Option<u16>)
        ensures
            !old(self).pm_present() ==> r is None,
            final(self).pm_present() == old(self).pm_present(),
            final(self).env_slot() == old(self).env_slot(),
    {
        match &mut self.pm {
            OptionalDevice::Present(d) => d.pm25(),
            OptionalDevice::Absent => None,
        }
    }
}

impl<P, E: Humidity> Humidity for Sensors<P, E> {
    /// Forward to the environmental device when it is present. An absent
    /// device answers `None`, stays absent, and leaves the other slot
    /// alone.
    fn humidity(&mut self) -> (r: Option<u16>)
        ensures
            !old(self).env_present() ==> r is None,
            final(self).env_present() == old(self).env_present(),
            final(self).pm_slot() == old(self).pm_slot(),
    {
        match &mut self.env {
            OptionalDevice::Present(d) => d.humidity(),
            OptionalDevice::Absent => None,
        }
    }
}

impl<P, E: Temperature> Temperature for Sensors<P, E> {
    /// Forward to the environmental device when it is present. An absent
    /// device answers `None`, stays absent, and leaves the other slot
    /// alone.
    fn temperature(&mut self) -> (r: Option<i16>)
        ensures
            !old(self).env_present() ==> r is None,
            final(self).env_present() == old(self).env_present(),
            final(self).pm_slot() == old(self).pm_slot(),
    {
        match &mut self.env {
            OptionalDevice::Present(d) => d.temperature(),
            OptionalDevice::Absent => None,
        }
    }
}

impl<P, E: Pressure> Pressure for Sensors<P, E> {
    /// Forward to the environmental device when it is present. An absent
    /// device answers `None`, stays absent, and leaves the other slot
    /// alone.
    fn pressure(&mut self) -> (r: Option<u32>)
        ensures
            !old(self).env_present() ==> r is None,
            final(self).env_present() == old(self).env_present(),
            final(self).pm_slot() == old(self).pm_slot(),
    {
        match &mut self.env {
            OptionalDevice::Present(d) => d.pressure(),
            OptionalDevice::Absent => None,
        }
    }
}

/// The assembled board: it owns the sensor aggregate.
pub struct Altruist<P, E> {
    pub sensors: Sensors<P, E>,
}

impl<P, E> Altruist<P, E> {
    /// Bring the board up from the outcome of each device's own
    /// initialization. A failed device leaves only its slot absent; the
    /// board itself always comes up.
    pub fn new<EP, EE>(pm_init: Result<P, EP>, env_init: Result<E, EE>) -> (r: Self)
        ensures
            r.sensors.pm_slot() == slot_of(pm_init),
            r.sensors.env_slot() == slot_of(env_init),
            r.sensors.pm_present() <==> pm_init is Ok,
            r.sensors.env_present() <==> env_init is Ok,
    {
        let pm = OptionalDevice::from_init(pm_init);
        let env = OptionalDevice::from_init(env_init);
        Altruist { sensors: Sensors::new(pm, env) }
    }
}

} // verus!
