//! Serial Peripheral Interface: mode error check and frame size.

use vstd::prelude::*;
use crate::dma::DmaChEn;
use crate::fib::IntLine;
use crate::rcc::Gated;

verus! {

/// SPI driver: the enabled driver behind its clock gate.
pub type Spi = Gated<SpiEn>;

/// CRC error flag of the status register.
pub const SR_CRCERR: u32 = 0x0010;
/// Mode fault flag of the status register.
pub const SR_MODF: u32 = 0x0020;
/// Overrun flag of the status register.
pub const SR_OVR: u32 = 0x0040;
/// Data size field of control register 2.
pub const CR2_DS: u32 = 0x0F00;
/// RXNE threshold bit of control register 2.
pub const CR2_FRXTH: u32 = 0x1000;

/// Motorola SPI mode error.
#[derive(Clone, Copy, Debug, PartialEq, Eq)]
pub enum SpiError {
    /// CRC value received does not match the `SPIx_RXCRCR` value.
    Crcerr,
    /// Overrun occurred.
    Ovr,
    /// Mode fault occurred.
    Modf,
}

impl SpiError {
    /// Human-readable description.
    pub open spec fn text(self) -> Seq<char> {
        match self {
            SpiError::Crcerr => "SPI CRC mismatch."@,
            SpiError::Ovr => "SPI queue overrun."@,
            SpiError::Modf => "SPI mode fault."@,
        }
    }

    /// Human-readable description.
    pub fn message(&self) -> (r: &'static str)
        ensures
            r@ == self.text(),
    {
        match self {
            SpiError::Crcerr => "SPI CRC mismatch.",
            SpiError::Ovr => "SPI queue overrun.",
            SpiError::Modf => "SPI mode fault.",
        }
    }
}

/// The mode error that a status register value reports: overrun first, then
/// mode fault, then CRC error.
pub open spec fn spi_error_of(sr: u32) -> Result<(), SpiError> {
    if sr & SR_OVR != 0 {
        Err(SpiError::Ovr)
    } else if sr & SR_MODF != 0 {
        Err(SpiError::Modf)
    } else if sr & SR_CRCERR != 0 {
        Err(SpiError::Crcerr)
    } else {
        Ok(())
    }
}

/// An enabled SPI peripheral: its control and status registers, the address
/// of its data register and its interrupt line.
#[derive(Debug)]
pub struct SpiEn {
    /// Control register 1.
    pub cr1: u32,
    /// Control register 2.
    pub cr2: u32,
    /// Status register.
    pub sr: u32,
    /// Address of the data register.
    pub dr: usize,
    /// The peripheral's interrupt line.
    pub int_line: IntLine,
}

impl SpiEn {
    /// A peripheral in its reset state, with its data register at `dr`.
    pub fn new(dr: usize, int_line: IntLine) -> (r: SpiEn)
        ensures
            r == (SpiEn { cr1: 0, cr2: 0x0700, sr: 0x0002, dr, int_line }),
    {
        SpiEn { cr1: 0, cr2: 0x0700, sr: 0x0002, dr, int_line }
    }

    /// Returns control register 1.
    pub fn cr1(&self) -> (r: u32)
        ensures
            r == self.cr1,
    {
        self.cr1
    }

    /// Returns control register 2.
    pub fn cr2(&self) -> (r: u32)
        ensures
            r == self.cr2,
    {
        self.cr2
    }

    /// Returns the status register.
    pub fn sr(&self) -> (r: u32)
        ensures
            r == self.sr,
    {
        self.sr
    }

    /// Returns the peripheral's interrupt line.
    pub fn int_line(&self) -> (r: &IntLine)
        ensures
            *r == self.int_line,
    {
        &self.int_line
    }

    /// Points a receiving DMA channel at the data register.
    pub fn dma_rx_paddr_init(&self, dma_rx: &mut DmaChEn)
        ensures
            *final(dma_rx) == (DmaChEn { cpar: self.dr, ..*old(dma_rx) }),
    {
        dma_rx.set_paddr(self.dr);
    }

    /// Points a transmitting DMA channel at the data register.
    pub fn dma_tx_paddr_init(&self, dma_tx: &mut DmaChEn)
        ensures
            *final(dma_tx) == (DmaChEn { cpar: self.dr, ..*old(dma_tx) }),
    {
        dma_tx.set_paddr(self.dr);
    }

    /// Checks a status register value for SPI mode errors.
    pub fn spi_errck(&self, sr: u32) -> (r: Result<(), SpiError>)
        ensures
            r == spi_error_of(sr),
    {
        if sr & SR_OVR != 0 {
            Err(SpiError::Ovr)
        } else if sr & SR_MODF != 0 {
            Err(SpiError::Modf)
        } else if sr & SR_CRCERR != 0 {
            Err(SpiError::Crcerr)
        } else {
            Ok(())
        }
    }

    /// Sets the size of a data frame to 8 bits in a control register 2 value:
    /// data size field 0b0111 and the 8-bit receive threshold, other bits kept.
    pub fn set_frame_8(&self, cr2: &mut u32)
        ensures
            *final(cr2) == (*old(cr2) & !CR2_DS) | 0x0700 | CR2_FRXTH,
    {
        *cr2 = (*cr2 & !CR2_DS) | 0x0700 | CR2_FRXTH;
    }
}

} // verus!
