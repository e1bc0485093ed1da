//! Basic timer: prescaler setup, scheduling, and the sleep future.

use vstd::prelude::*;
use crate::fib::FlagFuture;
use crate::rcc::Gated;

verus! {

/// Timer driver: the enabled driver behind its clock gate.
pub type Tim = Gated<TimEn>;

/// Counter enable bit of control register 1.
pub const TIM_CR1_CEN: u32 = 0x0001;
/// Update request source bit of control register 1.
pub const TIM_CR1_URS: u32 = 0x0004;
/// One-pulse mode bit of control register 1.
pub const TIM_CR1_OPM: u32 = 0x0008;
/// Update interrupt enable bit of the interrupt enable register.
pub const TIM_DIER_UIE: u32 = 0x0001;
/// Update generation bit of the event generation register.
pub const TIM_EGR_UG: u32 = 0x0001;
/// Largest value of the prescaler and auto-reload registers.
pub const TIM_MAX: u32 = 0xFFFF;

/// An enabled basic timer: its registers.
#[derive(Debug)]
pub struct TimEn {
    /// Control register 1.
    pub cr1: u32,
    /// Interrupt enable register.
    pub dier: u32,
    /// Event generation register.
    pub egr: u32,
    /// Update interrupt flag.
    pub uif: bool,
    /// Counter.
    pub cnt: u32,
    /// Prescaler.
    pub psc: u32,
    /// Auto-reload register.
    pub arr: u32,
}

impl TimEn {
    /// A timer in its reset state.
    pub fn new() -> (r: TimEn)
        ensures
            r == (TimEn { cr1: 0, dier: 0, egr: 0, uif: false, cnt: 0, psc: 0, arr: 0 }),
    {
        TimEn { cr1: 0, dier: 0, egr: 0, uif: false, cnt: 0, psc: 0, arr: 0 }
    }

    /// Sets the prescaler, forces an update event so that it takes effect,
    /// clears the resulting update flag and enables the update interrupt.
    pub fn presc(&mut self, value: u32)
        requires
            value <= TIM_MAX,
        ensures
            *final(self) == (TimEn {
                psc: value,
                egr: TIM_EGR_UG,
                uif: false,
                dier: TIM_DIER_UIE,
                ..*old(self)
            }),
    {
        self.psc = value;
        self.dier = 0;
        self.egr = TIM_EGR_UG;
        self.uif = false;
        self.dier = TIM_DIER_UIE;
    }

    /// Starts the counter from zero towards `duration`, in one-pulse mode
    /// when `one_pulse` holds.
    pub fn schedule(&mut self, duration: u32, one_pulse: bool)
        requires
            duration <= TIM_MAX,
        ensures
            *final(self) == (TimEn {
                cnt: 0,
                arr: duration,
                cr1: TIM_CR1_CEN | TIM_CR1_URS | (if one_pulse { TIM_CR1_OPM } else { 0 }),
                ..*old(self)
            }),
    {
        self.cnt = 0;
        self.arr = duration;
        let opm: u32 = if one_pulse { TIM_CR1_OPM } else { 0 };
        self.cr1 = TIM_CR1_CEN | TIM_CR1_URS | opm;
    }

    /// Starts a one-pulse count of `duration` and returns a future that
    /// resolves on its update event.
    pub fn sleep(&mut self, duration: u32) -> (r: FlagFuture)
        requires
            duration <= TIM_MAX,
        ensures
            *final(self) == (TimEn {
                cnt: 0,
                arr: duration,
                cr1: TIM_CR1_CEN | TIM_CR1_URS | TIM_CR1_OPM,
                ..*old(self)
            }),
            !r.done,
    {
        let future = FlagFuture::new();
        self.schedule(duration, true);
        future
    }

    /// Stops the counter.
    pub fn stop(&mut self)
        ensures
            *final(self) == (TimEn { cr1: 0, ..*old(self) }),
    {
        self.cr1 = 0;
    }
}

} // verus!
