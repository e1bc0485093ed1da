//! DMA channel: register model and the transfer-complete / half-transfer
//! futures.

use vstd::prelude::*;
use crate::fib::{IntLine, Poll, Pollable};

verus! {

/// Channel enable.
pub const CCR_EN: u32 = 0x0001;
/// Transfer-complete interrupt enable.
pub const CCR_TCIE: u32 = 0x0002;
/// Half-transfer interrupt enable.
pub const CCR_HTIE: u32 = 0x0004;
/// Transfer-error interrupt enable.
pub const CCR_TEIE: u32 = 0x0008;
/// Direction: set reads from memory, clear reads from the peripheral.
pub const CCR_DIR: u32 = 0x0010;
/// Circular mode.
pub const CCR_CIRC: u32 = 0x0020;
/// Peripheral address increment.
pub const CCR_PINC: u32 = 0x0040;
/// Memory address increment.
pub const CCR_MINC: u32 = 0x0080;
/// Peripheral word size field.
pub const CCR_PSIZE: u32 = 0x0300;
/// Memory word size field.
pub const CCR_MSIZE: u32 = 0x0C00;
/// Priority level field.
pub const CCR_PL: u32 = 0x3000;
/// Memory-to-memory mode.
pub const CCR_MEM2MEM: u32 = 0x4000;
/// Value of the control register after reset.
pub const CCR_RESET: u32 = 0;
/// Largest value the transfer-count register holds.
pub const NDT_MAX: usize = 0xFFFF;

/// Channel enable bit of a control register value.
pub open spec fn ccr_en(v: u32) -> bool {
    v & CCR_EN != 0
}

/// Transfer-complete interrupt enable bit of a control register value.
pub open spec fn ccr_tcie(v: u32) -> bool {
    v & CCR_TCIE != 0
}

/// Half-transfer interrupt enable bit of a control register value.
pub open spec fn ccr_htie(v: u32) -> bool {
    v & CCR_HTIE != 0
}

/// Transfer-error interrupt enable bit of a control register value.
pub open spec fn ccr_teie(v: u32) -> bool {
    v & CCR_TEIE != 0
}

/// Direction bit of a control register value: set reads from memory.
pub open spec fn ccr_dir(v: u32) -> bool {
    v & CCR_DIR != 0
}

/// Memory increment bit of a control register value.
pub open spec fn ccr_minc(v: u32) -> bool {
    v & CCR_MINC != 0
}

/// Error returned when the channel's transfer-error flag is set.
#[derive(Clone, Copy, Debug, PartialEq, Eq)]
pub struct DmaTransferError;

impl DmaTransferError {
    /// Human-readable description.
    pub open spec fn text(self) -> Seq<char> {
        "DMA transfer error."@
    }

    /// Human-readable description.
    pub fn message(&self) -> (r: &'static str)
        ensures
            r@ == self.text(),
    {
        "DMA transfer error."
    }
}

/// Status flags of one DMA channel.
///
/// The global flag is not stored: the hardware sets it whenever one of the
/// three event flags is set (see `gif`).
#[derive(Clone, Copy, Debug, PartialEq, Eq)]
pub struct DmaChFlags {
    /// Transfer complete.
    pub tcif: bool,
    /// Half transfer.
    pub htif: bool,
    /// Transfer error.
    pub teif: bool,
}

impl DmaChFlags {
    /// No flag set.
    pub fn new() -> (r: DmaChFlags)
        ensures
            !r.tcif && !r.htif && !r.teif,
    {
        DmaChFlags { tcif: false, htif: false, teif: false }
    }

    /// Global interrupt flag of the channel.
    pub open spec fn gif_spec(self) -> bool {
        self.tcif || self.htif || self.teif
    }

    /// Global interrupt flag of the channel.
    pub fn gif(&self) -> (r: bool)
        ensures
            r == self.gif_spec(),
    {
        self.tcif || self.htif || self.teif
    }
}

/// The event a channel future waits for.
#[derive(Clone, Copy, Debug, PartialEq, Eq)]
pub enum DmaEvent {
    TransferComplete,
    HalfTransfer,
}

/// The flag of `flags` that signals `event`.
pub open spec fn event_flag(flags: DmaChFlags, event: DmaEvent) -> bool {
    match event {
        DmaEvent::TransferComplete => flags.tcif,
        DmaEvent::HalfTransfer => flags.htif,
    }
}

/// `flags` with the flag that signals `event` cleared.
pub open spec fn clear_event(flags: DmaChFlags, event: DmaEvent) -> DmaChFlags {
    match event {
        DmaEvent::TransferComplete => DmaChFlags { tcif: false, ..flags },
        DmaEvent::HalfTransfer => DmaChFlags { htif: false, ..flags },
    }
}

/// Single-use future that resolves on a channel event or on a transfer error.
#[derive(Debug)]
pub struct DmaTransferFuture {
    pub event: DmaEvent,
    pub done: bool,
}

impl DmaTransferFuture {
    /// A fresh future waiting for `event`.
    pub fn new(event: DmaEvent) -> (r: DmaTransferFuture)
        ensures
            r.event == event,
            !r.done,
    {
        DmaTransferFuture { event, done: false }
    }
}

impl Pollable<DmaChFlags> for DmaTransferFuture {
    type Output = Result<(), DmaTransferError>;

    open spec fn live(&self) -> bool {
        !self.done
    }

    /// A transfer error wins over the awaited event: it clears every flag of
    /// the channel (a write of the clear-global flag) and resolves with an
    /// error. Otherwise the awaited event clears its own flag and resolves
    /// with success. Otherwise nothing changes.
    open spec fn poll_spec(self, env: DmaChFlags) -> (Self, DmaChFlags, Poll<Self::Output>) {
        if env.teif {
            (
                DmaTransferFuture { done: true, ..self },
                DmaChFlags { tcif: false, htif: false, teif: false },
                Poll::Ready(Err(DmaTransferError)),
            )
        } else if event_flag(env, self.event) {
            (
                DmaTransferFuture { done: true, ..self },
                clear_event(env, self.event),
                Poll::Ready(Ok(())),
            )
        } else {
            (self, env, Poll::Pending)
        }
    }

    proof fn lemma_resolves_once(self, env: DmaChFlags) {
    }

    fn poll(&mut self, env: &mut DmaChFlags) -> (r: Poll<Result<(), DmaTransferError>>) {
        if env.teif {
            env.tcif = false;
            env.htif = false;
            env.teif = false;
            self.done = true;
            Poll::Ready(Err(DmaTransferError))
        } else {
            let hit = match self.event {
                DmaEvent::TransferComplete => env.tcif,
                DmaEvent::HalfTransfer => env.htif,
            };
            if hit {
                match self.event {
                    DmaEvent::TransferComplete => env.tcif = false,
                    DmaEvent::HalfTransfer => env.htif = false,
                }
                self.done = true;
                Poll::Ready(Ok(()))
            } else {
                Poll::Pending
            }
        }
    }
}

/// An enabled DMA channel: its registers and its interrupt line.
#[derive(Debug)]
pub struct DmaChEn {
    /// Control register.
    pub ccr: u32,
    /// Memory address register.
    pub cmar: usize,
    /// Number of data to transfer.
    pub cndtr: usize,
    /// Peripheral address register.
    pub cpar: usize,
    /// Status flags.
    pub flags: DmaChFlags,
    /// The channel's interrupt line.
    pub int_line: IntLine,
}

impl DmaChEn {
    /// A channel in its reset state.
    pub fn new(int_line: IntLine) -> (r: DmaChEn)
        ensures
            r.ccr == CCR_RESET,
            r.cmar == 0,
            r.cndtr == 0,
            r.cpar == 0,
            r.flags == (DmaChFlags { tcif: false, htif: false, teif: false }),
            r.int_line == int_line,
    {
        DmaChEn { ccr: CCR_RESET, cmar: 0, cndtr: 0, cpar: 0, flags: DmaChFlags::new(), int_line }
    }

    /// Returns the number of data to transfer.
    pub fn size(&self) -> (r: usize)
        ensures
            r == self.cndtr,
    {
        self.cndtr
    }

    /// Sets the number of data to transfer.
    pub fn set_size(&mut self, number: usize)
        requires
            number <= NDT_MAX,
        ensures
            *final(self) == (DmaChEn { cndtr: number, ..*old(self) }),
    {
        self.cndtr = number;
    }

    /// Returns the peripheral address.
    pub fn paddr(&self) -> (r: usize)
        ensures
            r == self.cpar,
    {
        self.cpar
    }

    /// Sets the peripheral address.
    pub fn set_paddr(&mut self, addr: usize)
        ensures
            *final(self) == (DmaChEn { cpar: addr, ..*old(self) }),
    {
        self.cpar = addr;
    }

    /// Returns the memory address.
    pub fn maddr(&self) -> (r: usize)
        ensures
            r == self.cmar,
    {
        self.cmar
    }

    /// Sets the memory address.
    pub fn set_maddr(&mut self, addr: usize)
        ensures
            *final(self) == (DmaChEn { cmar: addr, ..*old(self) }),
    {
        self.cmar = addr;
    }

    /// Returns the control register value.
    pub fn ccr(&self) -> (r: u32)
        ensures
            r == self.ccr,
    {
        self.ccr
    }

    /// Stores a value in the control register.
    pub fn store_ccr(&mut self, val: u32)
        ensures
            *final(self) == (DmaChEn { ccr: val, ..*old(self) }),
    {
        self.ccr = val;
    }

    /// Returns the channel's interrupt line.
    pub fn int_line(&self) -> (r: &IntLine)
        ensures
            *r == self.int_line,
    {
        &self.int_line
    }

    /// Returns a future, which resolves on DMA transfer complete event.
    pub fn transfer_complete(&self) -> (r: DmaTransferFuture)
        ensures
            r.event == DmaEvent::TransferComplete,
            !r.done,
    {
        DmaTransferFuture::new(DmaEvent::TransferComplete)
    }

    /// Returns a future, which resolves on DMA half transfer event.
    pub fn half_transfer(&self) -> (r: DmaTransferFuture)
        ensures
            r.event == DmaEvent::HalfTransfer,
            !r.done,
    {
        DmaTransferFuture::new(DmaEvent::HalfTransfer)
    }
}

} // verus!
