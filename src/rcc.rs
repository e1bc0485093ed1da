//! Reset and clock control of one peripheral: the clock gate that a driver
//! turns on before use and off when it is released.

use vstd::prelude::*;

verus! {

/// The reset-and-clock-control bits of one peripheral.
#[derive(Clone, Copy, Debug, PartialEq, Eq)]
pub struct PeriphClock {
    /// Bus clock enabled.
    pub enabled: bool,
    /// Reset requested.
    pub reset: bool,
    /// Clock kept during Sleep and Stop modes.
    pub stop_mode: bool,
    /// Selected clock source.
    pub clock_sel: u32,
}

impl PeriphClock {
    /// A peripheral whose clock is off.
    pub fn new() -> (r: PeriphClock)
        ensures
            r == (PeriphClock { enabled: false, reset: false, stop_mode: false, clock_sel: 0 }),
    {
        PeriphClock { enabled: false, reset: false, stop_mode: false, clock_sel: 0 }
    }

    /// Whether the peripheral clock is on.
    pub fn is_enabled(&self) -> (r: bool)
        ensures
            r == self.enabled,
    {
        self.enabled
    }

    /// Turns the peripheral clock on. The clock must be off: turning it on
    /// twice means two drivers claim the peripheral.
    pub fn enable(&mut self)
        requires
            !old(self).enabled,
        ensures
            *final(self) == (PeriphClock { enabled: true, ..*old(self) }),
    {
        self.enabled = true;
    }

    /// Turns the peripheral clock off.
    pub fn disable(&mut self)
        ensures
            *final(self) == (PeriphClock { enabled: false, ..*old(self) }),
    {
        self.enabled = false;
    }

    /// Resets the peripheral.
    pub fn reset(&mut self)
        ensures
            *final(self) == (PeriphClock { reset: true, ..*old(self) }),
    {
        self.reset = true;
    }

    /// Disables the peripheral clocks by the clock gating during Sleep and
    /// Stop modes.
    pub fn disable_stop_mode(&mut self)
        ensures
            *final(self) == (PeriphClock { stop_mode: false, ..*old(self) }),
    {
        self.stop_mode = false;
    }

    /// Enables the peripheral clocks by the clock gating during Sleep and
    /// Stop modes.
    pub fn enable_stop_mode(&mut self)
        ensures
            *final(self) == (PeriphClock { stop_mode: true, ..*old(self) }),
    {
        self.stop_mode = true;
    }

    /// Selects a clock source for the peripheral.
    pub fn clock_sel(&mut self, value: u32)
        ensures
            *final(self) == (PeriphClock { clock_sel: value, ..*old(self) }),
    {
        self.clock_sel = value;
    }
}

/// A driver together with the clock gate of its peripheral: the enabled
/// driver is reachable only while the clock is on.
#[derive(Debug)]
pub struct Gated<T> {
    pub clock: PeriphClock,
    pub periph: T,
}

impl<T> Gated<T> {
    /// A driver whose peripheral clock is off.
    pub fn new(periph: T) -> (r: Gated<T>)
        ensures
            r.periph == periph,
            r.clock == (PeriphClock { enabled: false, reset: false, stop_mode: false, clock_sel: 0 }),
    {
        Gated { clock: PeriphClock::new(), periph }
    }

    /// Releases the peripheral.
    pub fn free(self) -> (r: T)
        ensures
            r == self.periph,
    {
        self.periph
    }

    /// Turns the clock on and hands out the enabled driver.
    pub fn enable(&mut self) -> (r: &mut T)
        requires
            !old(self).clock.enabled,
        ensures
            final(self).clock == (PeriphClock { enabled: true, ..old(self).clock }),
            *r == old(self).periph,
            final(self).periph == *final(r),
    {
        self.clock.enable();
        &mut self.periph
    }

    /// Turns the clock off.
    pub fn disable(&mut self)
        ensures
            final(self).clock == (PeriphClock { enabled: false, ..old(self).clock }),
            final(self).periph == old(self).periph,
    {
        self.clock.disable();
    }
}

} // verus!
