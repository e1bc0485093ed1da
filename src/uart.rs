//! Universal Asynchronous Receiver/Transmitter: the transmission-complete
//! future and the receiver's stream fiber.

use vstd::prelude::*;
use crate::dma::DmaChEn;
use crate::fib::{IntLine, Poll, Pollable};
use crate::rcc::Gated;

verus! {

/// UART driver: the enabled driver behind its clock gate.
pub type Uart = Gated<UartEn>;

/// UART receive stream overflow.
#[derive(Clone, Copy, Debug, PartialEq, Eq)]
pub struct UartRxOverflow;

impl UartRxOverflow {
    /// Human-readable description.
    pub fn message(&self) -> (r: &'static str)
        ensures
            r@ == "UART RX stream overflow."@,
    {
        "UART RX stream overflow."
    }
}

/// The state that the transmission-complete future reads and changes.
#[derive(Clone, Copy, Debug, PartialEq, Eq)]
pub struct UartTcFlags {
    /// Transmission complete status flag.
    pub tc: bool,
    /// Transmission complete interrupt enable.
    pub tcie: bool,
}

/// Future that resolves on transmission complete; it then disables the
/// transmission-complete interrupt.
#[derive(Debug)]
pub struct TransmissionComplete {
    pub done: bool,
}

impl TransmissionComplete {
    /// A fresh future.
    pub fn new() -> (r: TransmissionComplete)
        ensures
            !r.done,
    {
        TransmissionComplete { done: false }
    }
}

impl Pollable<UartTcFlags> for TransmissionComplete {
    type Output = ();

    open spec fn live(&self) -> bool {
        !self.done
    }

    /// With the status flag set the interrupt is disabled and the future
    /// resolves; otherwise nothing changes.
    open spec fn poll_spec(self, env: UartTcFlags) -> (Self, UartTcFlags, Poll<()>) {
        if env.tc {
            (TransmissionComplete { done: true }, UartTcFlags { tcie: false, ..env }, Poll::Ready(()))
        } else {
            (self, env, Poll::Pending)
        }
    }

    proof fn lemma_resolves_once(self, env: UartTcFlags) {
    }

    fn poll(&mut self, env: &mut UartTcFlags) -> (r: Poll<()>) {
        if env.tc {
            env.tcie = false;
            self.done = true;
            Poll::Ready(())
        } else {
            Poll::Pending
        }
    }
}

/// An enabled UART peripheral: the addresses of its data registers and its
/// interrupt line.
#[derive(Debug)]
pub struct UartEn {
    /// Address of the receive data register.
    pub rdr: usize,
    /// Address of the transmit data register.
    pub tdr: usize,
    /// The peripheral's interrupt line.
    pub int_line: IntLine,
}

impl UartEn {
    /// A peripheral with its data registers at `rdr` and `tdr`.
    pub fn new(rdr: usize, tdr: usize, int_line: IntLine) -> (r: UartEn)
        ensures
            r == (UartEn { rdr, tdr, int_line }),
    {
        UartEn { rdr, tdr, int_line }
    }

    /// Returns a future, which resolves on transmission complete event.
    pub fn transmission_complete(&self) -> (r: TransmissionComplete)
        ensures
            !r.done,
    {
        TransmissionComplete::new()
    }

    /// Points a receiving DMA channel at the receive data register.
    pub fn dma_rx_paddr_init(&self, dma_rx: &mut DmaChEn)
        ensures
            *final(dma_rx) == (DmaChEn { cpar: self.rdr, ..*old(dma_rx) }),
    {
        dma_rx.set_paddr(self.rdr);
    }

    /// Points a transmitting DMA channel at the transmit data register.
    pub fn dma_tx_paddr_init(&self, dma_tx: &mut DmaChEn)
        ensures
            *final(dma_tx) == (DmaChEn { cpar: self.tdr, ..*old(dma_tx) }),
    {
        dma_tx.set_paddr(self.tdr);
    }

    /// One step of the receiver's stream fiber: the byte in the receive data
    /// register when the receive-not-empty flag is set, else nothing.
    pub fn rx_stream_fib(&self, rxne: bool, rdr: u8) -> (r: Option<u8>)
        ensures
            r == (if rxne { Some(rdr) } else { None::<u8> }),
    {
        if rxne {
            Some(rdr)
        } else {
            None
        }
    }
}

} // verus!
