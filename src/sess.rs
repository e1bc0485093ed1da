//! I2C session: a peripheral together with its receiving and transmitting DMA
//! channels.

use vstd::prelude::*;
use crate::dma::{DmaChEn, CCR_EN};
use crate::fib::Poll;
use crate::i2c::{cr1_armed, cr2_value, dma_baseline, I2CDmaError, I2CEn, MAX_NBYTES};
use crate::transfer::I2CTransfer;

verus! {

/// I2C session error.
pub type I2CSessError = I2CDmaError;

/// I2C master session error.
pub type I2CMasterError = I2CDmaError;

/// I2C session driver.
#[derive(Debug)]
pub struct I2CSess {
    pub i2c: I2CEn,
    pub dma_rx: DmaChEn,
    pub dma_tx: DmaChEn,
}

/// I2C master session driver: the same session under its other name.
pub type I2CMaster = I2CSess;

impl I2CSess {
    /// Creates a new `I2CSess`.
    pub fn new(i2c: I2CEn, dma_rx: DmaChEn, dma_tx: DmaChEn) -> (r: I2CSess)
        ensures
            r == (I2CSess { i2c, dma_rx, dma_tx }),
    {
        I2CSess { i2c, dma_rx, dma_tx }
    }

    /// Releases the underlying resources.
    pub fn free(self) -> (r: (I2CEn, DmaChEn, DmaChEn))
        ensures
            r == (self.i2c, self.dma_rx, self.dma_tx),
    {
        (self.i2c, self.dma_rx, self.dma_tx)
    }

    /// Returns the peripheral.
    pub fn i2c(&self) -> (r: &I2CEn)
        ensures
            *r == self.i2c,
    {
        &self.i2c
    }

    /// Returns the receiving DMA channel.
    pub fn dma_rx(&self) -> (r: &DmaChEn)
        ensures
            *r == self.dma_rx,
    {
        &self.dma_rx
    }

    /// Returns the transmitting DMA channel.
    pub fn dma_tx(&self) -> (r: &DmaChEn)
        ensures
            *r == self.dma_tx,
    {
        &self.dma_tx
    }

    /// Initializes DMA for the I2C as peripheral: each channel's peripheral
    /// address is the matching data register.
    pub fn dma_init(&mut self)
        ensures
            final(self).i2c == old(self).i2c,
            final(self).dma_rx == (DmaChEn { cpar: old(self).i2c.rxdr, ..old(self).dma_rx }),
            final(self).dma_tx == (DmaChEn { cpar: old(self).i2c.txdr, ..old(self).dma_tx }),
    {
        self.i2c.dma_rx_paddr_init(&mut self.dma_rx);
        self.i2c.dma_tx_paddr_init(&mut self.dma_tx);
    }

    /// Reads `buf_len` bytes to the buffer at `buf_addr` from `slave_addr`.
    /// Leaves the session open.
    pub fn read(&mut self, buf_addr: usize, buf_len: usize, slave_addr: u8, i2c_cr1_val: u32, i2c_cr2_val: u32) -> (r: I2CTransfer)
        requires
            buf_len <= MAX_NBYTES,
        ensures
            final(self).dma_rx == (DmaChEn {
                cmar: buf_addr,
                cndtr: buf_len,
                ccr: dma_baseline(false) | CCR_EN,
                ..old(self).dma_rx
            }),
            final(self).i2c == (I2CEn {
                cr1: cr1_armed(i2c_cr1_val, false),
                cr2: cr2_value(i2c_cr2_val, slave_addr, false, buf_len as u32, false),
                ..old(self).i2c
            }),
            final(self).dma_tx == old(self).dma_tx,
            r == I2CTransfer::started(false),
    {
        self.i2c.read(&mut self.dma_rx, buf_addr, buf_len, slave_addr, i2c_cr1_val, i2c_cr2_val)
    }

    /// Reads `buf_len` bytes to the buffer at `buf_addr` from `slave_addr`.
    /// Closes the session afterwards.
    pub fn read_and_stop(&mut self, buf_addr: usize, buf_len: usize, slave_addr: u8, i2c_cr1_val: u32, i2c_cr2_val: u32) -> (r: I2CTransfer)
        requires
            buf_len <= MAX_NBYTES,
        ensures
            final(self).dma_rx == (DmaChEn {
                cmar: buf_addr,
                cndtr: buf_len,
                ccr: dma_baseline(false) | CCR_EN,
                ..old(self).dma_rx
            }),
            final(self).i2c == (I2CEn {
                cr1: cr1_armed(i2c_cr1_val, false),
                cr2: cr2_value(i2c_cr2_val, slave_addr, true, buf_len as u32, false),
                ..old(self).i2c
            }),
            final(self).dma_tx == old(self).dma_tx,
            r == I2CTransfer::started(false),
    {
        self.i2c.read_and_stop(&mut self.dma_rx, buf_addr, buf_len, slave_addr, i2c_cr1_val, i2c_cr2_val)
    }

    /// Writes `buf_len` bytes from the buffer at `buf_addr` to `slave_addr`.
    /// Leaves the session open.
    pub fn write(&mut self, buf_addr: usize, buf_len: usize, slave_addr: u8, i2c_cr1_val: u32, i2c_cr2_val: u32) -> (r: I2CTransfer)
        requires
            buf_len <= MAX_NBYTES,
        ensures
            final(self).dma_tx == (DmaChEn {
                cmar: buf_addr,
                cndtr: buf_len,
                ccr: dma_baseline(true) | CCR_EN,
                ..old(self).dma_tx
            }),
            final(self).i2c == (I2CEn {
                cr1: cr1_armed(i2c_cr1_val, true),
                cr2: cr2_value(i2c_cr2_val, slave_addr, false, buf_len as u32, true),
                ..old(self).i2c
            }),
            final(self).dma_rx == old(self).dma_rx,
            r == I2CTransfer::started(true),
    {
        self.i2c.write(&mut self.dma_tx, buf_addr, buf_len, slave_addr, i2c_cr1_val, i2c_cr2_val)
    }

    /// Writes `buf_len` bytes from the buffer at `buf_addr` to `slave_addr`.
    /// Closes the session afterwards.
    pub fn write_and_stop(&mut self, buf_addr: usize, buf_len: usize, slave_addr: u8, i2c_cr1_val: u32, i2c_cr2_val: u32) -> (r: I2CTransfer)
        requires
            buf_len <= MAX_NBYTES,
        ensures
            final(self).dma_tx == (DmaChEn {
                cmar: buf_addr,
                cndtr: buf_len,
                ccr: dma_baseline(true) | CCR_EN,
                ..old(self).dma_tx
            }),
            final(self).i2c == (I2CEn {
                cr1: cr1_armed(i2c_cr1_val, true),
                cr2: cr2_value(i2c_cr2_val, slave_addr, true, buf_len as u32, true),
                ..old(self).i2c
            }),
            final(self).dma_rx == old(self).dma_rx,
            r == I2CTransfer::started(true),
    {
        self.i2c.write_and_stop(&mut self.dma_tx, buf_addr, buf_len, slave_addr, i2c_cr1_val, i2c_cr2_val)
    }

    /// Polls a transaction of this session once, on the channel of its
    /// direction.
    pub fn poll(&mut self, t: &mut I2CTransfer) -> (r: Poll<Result<(), I2CDmaError>>)
        requires
            old(t).live(),
        ensures
            old(t).write ==> {
                &&& (*final(t), final(self).i2c, final(self).dma_tx, r) == old(t).step(old(self).i2c, old(self).dma_tx)
                &&& final(self).dma_rx == old(self).dma_rx
            },
            !old(t).write ==> {
                &&& (*final(t), final(self).i2c, final(self).dma_rx, r) == old(t).step(old(self).i2c, old(self).dma_rx)
                &&& final(self).dma_tx == old(self).dma_tx
            },
    {
        if t.write {
            t.poll(&mut self.i2c, &mut self.dma_tx)
        } else {
            t.poll(&mut self.i2c, &mut self.dma_rx)
        }
    }
}

} // verus!
