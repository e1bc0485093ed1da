//! Inter-Integrated Circuit: register model, the break and error detectors,
//! and the DMA read/write transaction.

use vstd::prelude::*;
use crate::dma::{
    ccr_dir, ccr_en, ccr_htie, ccr_minc, ccr_tcie, ccr_teie, DmaChEn, DmaTransferError, CCR_DIR,
    CCR_EN, CCR_MINC, CCR_TCIE, CCR_TEIE,
};
use crate::fib::{IntLine, Poll, Pollable};
use crate::select3::Select3;
use crate::transfer::I2CTransfer;
use crate::rcc::Gated;
use vstd::string::StringExecFns;

verus! {

/// I2C driver: the enabled driver behind its clock gate.
pub type I2C = Gated<I2CEn>;

/// Peripheral enable.
pub const CR1_PE: u32 = 0x0001;
/// NACK received interrupt enable.
pub const CR1_NACKIE: u32 = 0x0010;
/// Error interrupts enable.
pub const CR1_ERRIE: u32 = 0x0080;
/// DMA transmission requests enable.
pub const CR1_TXDMAEN: u32 = 0x4000;
/// DMA reception requests enable.
pub const CR1_RXDMAEN: u32 = 0x8000;

/// Slave address field.
pub const CR2_SADD: u32 = 0x0000_03FF;
/// Transfer direction: set for a read.
pub const CR2_RD_WRN: u32 = 0x0000_0400;
/// 10-bit addressing mode.
pub const CR2_ADD10: u32 = 0x0000_0800;
/// Start generation.
pub const CR2_START: u32 = 0x0000_2000;
/// Number of bytes field.
pub const CR2_NBYTES: u32 = 0x00FF_0000;
/// Automatic STOP after the last byte.
pub const CR2_AUTOEND: u32 = 0x0200_0000;

/// Largest number of bytes one transaction moves (width of the byte-count
/// field).
pub const MAX_NBYTES: usize = 255;

/// I2C error.
#[derive(Clone, Copy, Debug, PartialEq, Eq)]
pub enum I2CError {
    /// Bus error.
    Berr,
    /// Overrun/Underrun.
    Ovr,
    /// Arbitration lost.
    Arlo,
    /// Timeout or t_low detection flag.
    Timeout,
    /// SMBus alert.
    Alert,
    /// PEC error in reception.
    Pecerr,
}

/// I2C transfer failure event.
#[derive(Clone, Copy, Debug, PartialEq, Eq)]
pub enum I2CBreak {
    /// NACK reception.
    Nack,
    /// Stop reception.
    Stop,
}

/// I2C DMA error.
#[derive(Clone, Copy, Debug, PartialEq, Eq)]
pub enum I2CDmaError {
    /// DMA error.
    Dma(DmaTransferError),
    /// I2C transfer failure.
    I2CBreak(I2CBreak),
    /// I2C error.
    I2CError(I2CError),
}

impl I2CError {
    /// Human-readable description.
    pub open spec fn text(self) -> Seq<char> {
        match self {
            I2CError::Berr => "I2C bus error."@,
            I2CError::Ovr => "I2C overrun."@,
            I2CError::Arlo => "I2C arbitration lost."@,
            I2CError::Timeout => "I2C timeout."@,
            I2CError::Alert => "I2C SMBus alert."@,
            I2CError::Pecerr => "I2C PEC error."@,
        }
    }

    /// Human-readable description.
    pub fn message(&self) -> (r: &'static str)
        ensures
            r@ == self.text(),
    {
        match self {
            I2CError::Berr => "I2C bus error.",
            I2CError::Ovr => "I2C overrun.",
            I2CError::Arlo => "I2C arbitration lost.",
            I2CError::Timeout => "I2C timeout.",
            I2CError::Alert => "I2C SMBus alert.",
            I2CError::Pecerr => "I2C PEC error.",
        }
    }
}

impl I2CBreak {
    /// Human-readable description.
    pub open spec fn text(self) -> Seq<char> {
        match self {
            I2CBreak::Nack => "I2C NACK received."@,
            I2CBreak::Stop => "I2C STOP received."@,
        }
    }

    /// Human-readable description.
    pub fn message(&self) -> (r: &'static str)
        ensures
            r@ == self.text(),
    {
        match self {
            I2CBreak::Nack => "I2C NACK received.",
            I2CBreak::Stop => "I2C STOP received.",
        }
    }
}

impl I2CDmaError {
    /// Human-readable description: the family of the error, then the
    /// description of its cause.
    pub open spec fn text(self) -> Seq<char> {
        match self {
            I2CDmaError::Dma(e) => "DMA error: "@ + e.text(),
            I2CDmaError::I2CBreak(e) => "I2C failure: "@ + e.text(),
            I2CDmaError::I2CError(e) => "I2C error: "@ + e.text(),
        }
    }

    /// Human-readable description.
    pub fn message(&self) -> (r: String)
        ensures
            r@ == self.text(),
    {
        match self {
            I2CDmaError::Dma(e) => {
                let mut s = String::from_str("DMA error: ");
                s.append(e.message());
                s
            },
            I2CDmaError::I2CBreak(e) => {
                let mut s = String::from_str("I2C failure: ");
                s.append(e.message());
                s
            },
            I2CDmaError::I2CError(e) => {
                let mut s = String::from_str("I2C error: ");
                s.append(e.message());
                s
            },
        }
    }
}

impl From<DmaTransferError> for I2CDmaError {
    fn from(err: DmaTransferError) -> (r: Self)
        ensures
            r == I2CDmaError::Dma(err),
    {
        I2CDmaError::Dma(err)
    }
}

impl vstd::std_specs::convert::FromSpecImpl<DmaTransferError> for I2CDmaError {
    open spec fn obeys_from_spec() -> bool {
        true
    }

    open spec fn from_spec(v: DmaTransferError) -> Self {
        I2CDmaError::Dma(v)
    }
}

impl From<I2CBreak> for I2CDmaError {
    fn from(err: I2CBreak) -> (r: Self)
        ensures
            r == I2CDmaError::I2CBreak(err),
    {
        I2CDmaError::I2CBreak(err)
    }
}

impl vstd::std_specs::convert::FromSpecImpl<I2CBreak> for I2CDmaError {
    open spec fn obeys_from_spec() -> bool {
        true
    }

    open spec fn from_spec(v: I2CBreak) -> Self {
        I2CDmaError::I2CBreak(v)
    }
}

impl From<I2CError> for I2CDmaError {
    fn from(err: I2CError) -> (r: Self)
        ensures
            r == I2CDmaError::I2CError(err),
    {
        I2CDmaError::I2CError(err)
    }
}

impl vstd::std_specs::convert::FromSpecImpl<I2CError> for I2CDmaError {
    open spec fn obeys_from_spec() -> bool {
        true
    }

    open spec fn from_spec(v: I2CError) -> Self {
        I2CDmaError::I2CError(v)
    }
}

/// Status flags of the peripheral that the detectors watch.
#[derive(Clone, Copy, Debug, PartialEq, Eq)]
pub struct I2CFlags {
    /// NACK received.
    pub nackf: bool,
    /// STOP detected.
    pub stopf: bool,
    /// Bus error.
    pub berr: bool,
    /// Overrun/Underrun.
    pub ovr: bool,
    /// Arbitration lost.
    pub arlo: bool,
    /// Timeout or t_low detection.
    pub timeout: bool,
    /// SMBus alert.
    pub alert: bool,
    /// PEC error in reception.
    pub pecerr: bool,
}

impl I2CFlags {
    /// No flag set.
    pub fn new() -> (r: I2CFlags)
        ensures
            r == I2CFlags::clear_spec(),
    {
        I2CFlags {
            nackf: false,
            stopf: false,
            berr: false,
            ovr: false,
            arlo: false,
            timeout: false,
            alert: false,
            pecerr: false,
        }
    }

    /// No flag set.
    pub open spec fn clear_spec() -> I2CFlags {
        I2CFlags {
            nackf: false,
            stopf: false,
            berr: false,
            ovr: false,
            arlo: false,
            timeout: false,
            alert: false,
            pecerr: false,
        }
    }
}

/// The status flag that signals `e`.
pub open spec fn error_flag(f: I2CFlags, e: I2CError) -> bool {
    match e {
        I2CError::Berr => f.berr,
        I2CError::Ovr => f.ovr,
        I2CError::Arlo => f.arlo,
        I2CError::Timeout => f.timeout,
        I2CError::Alert => f.alert,
        I2CError::Pecerr => f.pecerr,
    }
}

/// `f` with the status flag that signals `e` cleared.
pub open spec fn clear_error(f: I2CFlags, e: I2CError) -> I2CFlags {
    match e {
        I2CError::Berr => I2CFlags { berr: false, ..f },
        I2CError::Ovr => I2CFlags { ovr: false, ..f },
        I2CError::Arlo => I2CFlags { arlo: false, ..f },
        I2CError::Timeout => I2CFlags { timeout: false, ..f },
        I2CError::Alert => I2CFlags { alert: false, ..f },
        I2CError::Pecerr => I2CFlags { pecerr: false, ..f },
    }
}

/// Rank of an error in the fixed reporting order: bus error first, PEC
/// error last.
pub open spec fn error_rank(e: I2CError) -> int {
    match e {
        I2CError::Berr => 0,
        I2CError::Ovr => 1,
        I2CError::Arlo => 2,
        I2CError::Timeout => 3,
        I2CError::Alert => 4,
        I2CError::Pecerr => 5,
    }
}

/// The error that a poll of the error detector reports on `f`: the first set
/// flag in the fixed order.
pub open spec fn first_error(f: I2CFlags) -> Option<I2CError> {
    if f.berr {
        Some(I2CError::Berr)
    } else if f.ovr {
        Some(I2CError::Ovr)
    } else if f.arlo {
        Some(I2CError::Arlo)
    } else if f.timeout {
        Some(I2CError::Timeout)
    } else if f.alert {
        Some(I2CError::Alert)
    } else if f.pecerr {
        Some(I2CError::Pecerr)
    } else {
        None
    }
}

/// Future that resolves on a NACK or a STOP, checked in that order.
#[derive(Debug)]
pub struct TransferBreak {
    pub done: bool,
}

impl Pollable<I2CFlags> for TransferBreak {
    type Output = I2CBreak;

    open spec fn live(&self) -> bool {
        !self.done
    }

    /// NACK clears its flag and resolves; else STOP clears its flag and
    /// resolves; else nothing changes.
    open spec fn poll_spec(self, env: I2CFlags) -> (Self, I2CFlags, Poll<I2CBreak>) {
        if env.nackf {
            (TransferBreak { done: true }, I2CFlags { nackf: false, ..env }, Poll::Ready(I2CBreak::Nack))
        } else if env.stopf {
            (TransferBreak { done: true }, I2CFlags { stopf: false, ..env }, Poll::Ready(I2CBreak::Stop))
        } else {
            (self, env, Poll::Pending)
        }
    }

    proof fn lemma_resolves_once(self, env: I2CFlags) {
    }

    fn poll(&mut self, env: &mut I2CFlags) -> (r: Poll<I2CBreak>) {
        if env.nackf {
            env.nackf = false;
            self.done = true;
            Poll::Ready(I2CBreak::Nack)
        } else if env.stopf {
            env.stopf = false;
            self.done = true;
            Poll::Ready(I2CBreak::Stop)
        } else {
            Poll::Pending
        }
    }
}

/// Future that resolves on the first error flag in the fixed order: bus
/// error, overrun, arbitration lost, timeout, SMBus alert, PEC error.
#[derive(Debug)]
pub struct TransferError {
    pub done: bool,
}

impl Pollable<I2CFlags> for TransferError {
    type Output = I2CError;

    open spec fn live(&self) -> bool {
        !self.done
    }

    /// Clears the flag of the first error set and resolves with it; with no
    /// error flag set nothing changes.
    open spec fn poll_spec(self, env: I2CFlags) -> (Self, I2CFlags, Poll<I2CError>) {
        match first_error(env) {
            Some(e) => (TransferError { done: true }, clear_error(env, e), Poll::Ready(e)),
            None => (self, env, Poll::Pending),
        }
    }

    proof fn lemma_resolves_once(self, env: I2CFlags) {
    }

    fn poll(&mut self, env: &mut I2CFlags) -> (r: Poll<I2CError>) {
        if env.berr {
            env.berr = false;
            self.done = true;
            Poll::Ready(I2CError::Berr)
        } else if env.ovr {
            env.ovr = false;
            self.done = true;
            Poll::Ready(I2CError::Ovr)
        } else if env.arlo {
            env.arlo = false;
            self.done = true;
            Poll::Ready(I2CError::Arlo)
        } else if env.timeout {
            env.timeout = false;
            self.done = true;
            Poll::Ready(I2CError::Timeout)
        } else if env.alert {
            env.alert = false;
            self.done = true;
            Poll::Ready(I2CError::Alert)
        } else if env.pecerr {
            env.pecerr = false;
            self.done = true;
            Poll::Ready(I2CError::Pecerr)
        } else {
            Poll::Pending
        }
    }
}


/// Slave address field of a CR2 value.
pub open spec fn cr2_sadd(v: u32) -> u32 {
    v & CR2_SADD
}

/// Direction bit of a CR2 value: set for a read.
pub open spec fn cr2_rd_wrn(v: u32) -> bool {
    v & CR2_RD_WRN != 0
}

/// 10-bit addressing bit of a CR2 value.
pub open spec fn cr2_add10(v: u32) -> bool {
    v & CR2_ADD10 != 0
}

/// Start bit of a CR2 value.
pub open spec fn cr2_start(v: u32) -> bool {
    v & CR2_START != 0
}

/// Byte count field of a CR2 value.
pub open spec fn cr2_nbytes(v: u32) -> u32 {
    (v >> 16) & 0xFF
}

/// Automatic-end bit of a CR2 value.
pub open spec fn cr2_autoend(v: u32) -> bool {
    v & CR2_AUTOEND != 0
}

/// The fields of CR2 that programming a transaction overwrites: address,
/// direction, 10-bit mode, byte count and automatic end.
pub const CR2_PROGRAM: u32 = 0x02FF_0FFF;

/// The bits of CR2 that programming a transaction leaves as they were.
pub const CR2_KEEP: u32 = 0xFD00_D000;

/// The CR2 value that starts a transaction: `val` with the 7-bit address
/// shifted into the address field, the direction, the byte count, the
/// automatic-end choice, 7-bit addressing and the start bit.
pub open spec fn cr2_value(val: u32, slave_addr: u8, autoend: bool, nbytes: u32, write: bool) -> u32 {
    (val & !CR2_PROGRAM)
        | (((slave_addr as u32) << 1) & 0xFF)
        | (if write { 0 } else { CR2_RD_WRN })
        | (nbytes << 16)
        | (if autoend { CR2_AUTOEND } else { 0 })
        | CR2_START
}

/// The CR1 value that arms the peripheral for a transaction: `val` with the
/// enable, error-interrupt, NACK-interrupt and DMA-request bits set.
pub open spec fn cr1_armed(val: u32, write: bool) -> u32 {
    val | CR1_PE | CR1_ERRIE | CR1_NACKIE | (if write { CR1_TXDMAEN } else { CR1_RXDMAEN })
}

/// The DMA control register value that a transaction leaves behind: memory
/// increment, byte-sized words, transfer-error and transfer-complete
/// interrupts, channel disabled, direction per `write`.
pub open spec fn dma_baseline(write: bool) -> u32 {
    if write {
        CCR_MINC | CCR_TEIE | CCR_TCIE | CCR_DIR
    } else {
        CCR_MINC | CCR_TEIE | CCR_TCIE
    }
}

proof fn lemma_cr2_bits(val: u32, a: u32, rd: u32, n: u32, ae: u32)
    by (bit_vector)
    requires
        a <= 255,
        n <= 255,
        rd == 0 || rd == 0x400,
        ae == 0 || ae == 0x200_0000,
    ensures
        ((val & !0x02FF_0FFFu32) | ((a << 1) & 0xFF) | rd | (n << 16) | ae | 0x2000) & 0x3FF == (a << 1) & 0xFF,
        ((val & !0x02FF_0FFFu32) | ((a << 1) & 0xFF) | rd | (n << 16) | ae | 0x2000) & 0x400 == rd,
        ((val & !0x02FF_0FFFu32) | ((a << 1) & 0xFF) | rd | (n << 16) | ae | 0x2000) & 0x800 == 0,
        ((val & !0x02FF_0FFFu32) | ((a << 1) & 0xFF) | rd | (n << 16) | ae | 0x2000) & 0x2000 != 0,
        (((val & !0x02FF_0FFFu32) | ((a << 1) & 0xFF) | rd | (n << 16) | ae | 0x2000) >> 16) & 0xFF == n,
        ((val & !0x02FF_0FFFu32) | ((a << 1) & 0xFF) | rd | (n << 16) | ae | 0x2000) & 0x200_0000 == ae,
        ((val & !0x02FF_0FFFu32) | ((a << 1) & 0xFF) | rd | (n << 16) | ae | 0x2000) & 0xFD00_D000
            == val & 0xFD00_D000,
{
}

/// What each field of a programmed CR2 value holds: the address field holds
/// the 7-bit address shifted left by one, the direction bit is set for a
/// read, the byte count is `nbytes`, the automatic-end bit is `autoend`,
/// 10-bit addressing is off, the start bit is set, and every other bit is
/// that of `val`.
pub proof fn lemma_cr2_fields(val: u32, slave_addr: u8, autoend: bool, nbytes: u32, write: bool)
    requires
        nbytes <= MAX_NBYTES,
    ensures
        cr2_sadd(cr2_value(val, slave_addr, autoend, nbytes, write)) == ((slave_addr as u32) << 1) & 0xFF,
        cr2_rd_wrn(cr2_value(val, slave_addr, autoend, nbytes, write)) == !write,
        !cr2_add10(cr2_value(val, slave_addr, autoend, nbytes, write)),
        cr2_start(cr2_value(val, slave_addr, autoend, nbytes, write)),
        cr2_nbytes(cr2_value(val, slave_addr, autoend, nbytes, write)) == nbytes,
        cr2_autoend(cr2_value(val, slave_addr, autoend, nbytes, write)) == autoend,
        cr2_value(val, slave_addr, autoend, nbytes, write) & CR2_KEEP == val & CR2_KEEP,
{
    let rd: u32 = if write { 0 } else { 0x400 };
    let ae: u32 = if autoend { 0x200_0000 } else { 0 };
    lemma_cr2_bits(val, slave_addr as u32, rd, nbytes, ae);
}

/// "And-stop" transactions program the automatic-end bit, "leave-open"
/// transactions clear it, whatever the other arguments.
pub proof fn lemma_autoend(val: u32, slave_addr: u8, nbytes: u32, write: bool)
    requires
        nbytes <= MAX_NBYTES,
    ensures
        cr2_autoend(cr2_value(val, slave_addr, true, nbytes, write)),
        !cr2_autoend(cr2_value(val, slave_addr, false, nbytes, write)),
{
    lemma_cr2_fields(val, slave_addr, true, nbytes, write);
    lemma_cr2_fields(val, slave_addr, false, nbytes, write);
}


/// An enabled I2C peripheral: its control registers, its status flags and
/// its event and error interrupt lines.
#[derive(Debug)]
pub struct I2CEn {
    /// Control register 1.
    pub cr1: u32,
    /// Control register 2.
    pub cr2: u32,
    /// Timing register.
    pub timingr: u32,
    /// Status flags.
    pub flags: I2CFlags,
    /// Address of the receive data register.
    pub rxdr: usize,
    /// Address of the transmit data register.
    pub txdr: usize,
    /// Event interrupt line.
    pub int_ev: IntLine,
    /// Error interrupt line.
    pub int_er: IntLine,
}

impl I2CEn {
    /// A peripheral in its reset state, with its data registers at `rxdr`
    /// and `txdr`.
    pub fn new(rxdr: usize, txdr: usize, int_ev: IntLine, int_er: IntLine) -> (r: I2CEn)
        ensures
            r.rxdr == rxdr,
            r.txdr == txdr,
            r.cr1 == 0,
            r.cr2 == 0,
            r.timingr == 0,
            r.flags == I2CFlags::clear_spec(),
            r.int_ev == int_ev,
            r.int_er == int_er,
    {
        I2CEn { cr1: 0, cr2: 0, timingr: 0, flags: I2CFlags::new(), rxdr, txdr, int_ev, int_er }
    }

    /// Returns control register 1.
    pub fn cr1(&self) -> (r: u32)
        ensures
            r == self.cr1,
    {
        self.cr1
    }

    /// Returns control register 2.
    pub fn cr2(&self) -> (r: u32)
        ensures
            r == self.cr2,
    {
        self.cr2
    }

    /// Returns the timing register.
    pub fn timingr(&self) -> (r: u32)
        ensures
            r == self.timingr,
    {
        self.timingr
    }

    /// Reads `buf_len` bytes to the buffer at `buf_addr` from `slave_addr`. Leaves the session open.
    ///
    /// Arms the DMA channel and the peripheral and starts the transaction;
    /// the returned transfer is then polled until it resolves.
    pub fn read(
        &mut self,
        dma_rx: &mut DmaChEn,
        buf_addr: usize,
        buf_len: usize,
        slave_addr: u8,
        i2c_cr1_val: u32,
        i2c_cr2_val: u32,
    ) -> (r: I2CTransfer)
        requires
            buf_len <= MAX_NBYTES,
        ensures
            *final(dma_rx) == (DmaChEn {
                cmar: buf_addr,
                cndtr: buf_len,
                ccr: dma_baseline(false) | CCR_EN,
                ..*old(dma_rx)
            }),
            *final(self) == (I2CEn {
                cr1: cr1_armed(i2c_cr1_val, false),
                cr2: cr2_value(i2c_cr2_val, slave_addr, false, buf_len as u32, false),
                ..*old(self)
            }),
            r == I2CTransfer::started(false),
            r.live(),
    {
        self.read_impl(dma_rx, buf_addr, buf_len, slave_addr, i2c_cr1_val, i2c_cr2_val, false)
    }

    /// Reads `buf_len` bytes to the buffer at `buf_addr` from `slave_addr`. Closes the session afterwards.
    ///
    /// Arms the DMA channel and the peripheral and starts the transaction;
    /// the returned transfer is then polled until it resolves.
    pub fn read_and_stop(
        &mut self,
        dma_rx: &mut DmaChEn,
        buf_addr: usize,
        buf_len: usize,
        slave_addr: u8,
        i2c_cr1_val: u32,
        i2c_cr2_val: u32,
    ) -> (r: I2CTransfer)
        requires
            buf_len <= MAX_NBYTES,
        ensures
            *final(dma_rx) == (DmaChEn {
                cmar: buf_addr,
                cndtr: buf_len,
                ccr: dma_baseline(false) | CCR_EN,
                ..*old(dma_rx)
            }),
            *final(self) == (I2CEn {
                cr1: cr1_armed(i2c_cr1_val, false),
                cr2: cr2_value(i2c_cr2_val, slave_addr, true, buf_len as u32, false),
                ..*old(self)
            }),
            r == I2CTransfer::started(false),
            r.live(),
    {
        self.read_impl(dma_rx, buf_addr, buf_len, slave_addr, i2c_cr1_val, i2c_cr2_val, true)
    }

    /// Writes `buf_len` bytes from the buffer at `buf_addr` to `slave_addr`. Leaves the session open.
    ///
    /// Arms the DMA channel and the peripheral and starts the transaction;
    /// the returned transfer is then polled until it resolves.
    pub fn write(
        &mut self,
        dma_tx: &mut DmaChEn,
        buf_addr: usize,
        buf_len: usize,
        slave_addr: u8,
        i2c_cr1_val: u32,
        i2c_cr2_val: u32,
    ) -> (r: I2CTransfer)
        requires
            buf_len <= MAX_NBYTES,
        ensures
            *final(dma_tx) == (DmaChEn {
                cmar: buf_addr,
                cndtr: buf_len,
                ccr: dma_baseline(true) | CCR_EN,
                ..*old(dma_tx)
            }),
            *final(self) == (I2CEn {
                cr1: cr1_armed(i2c_cr1_val, true),
                cr2: cr2_value(i2c_cr2_val, slave_addr, false, buf_len as u32, true),
                ..*old(self)
            }),
            r == I2CTransfer::started(true),
            r.live(),
    {
        self.write_impl(dma_tx, buf_addr, buf_len, slave_addr, i2c_cr1_val, i2c_cr2_val, false)
    }

    /// Writes `buf_len` bytes from the buffer at `buf_addr` to `slave_addr`. Closes the session afterwards.
    ///
    /// Arms the DMA channel and the peripheral and starts the transaction;
    /// the returned transfer is then polled until it resolves.
    pub fn write_and_stop(
        &mut self,
        dma_tx: &mut DmaChEn,
        buf_addr: usize,
        buf_len: usize,
        slave_addr: u8,
        i2c_cr1_val: u32,
        i2c_cr2_val: u32,
    ) -> (r: I2CTransfer)
        requires
            buf_len <= MAX_NBYTES,
        ensures
            *final(dma_tx) == (DmaChEn {
                cmar: buf_addr,
                cndtr: buf_len,
                ccr: dma_baseline(true) | CCR_EN,
                ..*old(dma_tx)
            }),
            *final(self) == (I2CEn {
                cr1: cr1_armed(i2c_cr1_val, true),
                cr2: cr2_value(i2c_cr2_val, slave_addr, true, buf_len as u32, true),
                ..*old(self)
            }),
            r == I2CTransfer::started(true),
            r.live(),
    {
        self.write_impl(dma_tx, buf_addr, buf_len, slave_addr, i2c_cr1_val, i2c_cr2_val, true)
    }

    /// Points a receiving DMA channel at the receive data register.
    pub fn dma_rx_paddr_init(&self, dma_rx: &mut DmaChEn)
        ensures
            *final(dma_rx) == (DmaChEn { cpar: self.rxdr, ..*old(dma_rx) }),
    {
        dma_rx.set_paddr(self.rxdr);
    }

    /// Points a transmitting DMA channel at the transmit data register.
    pub fn dma_tx_paddr_init(&self, dma_tx: &mut DmaChEn)
        ensures
            *final(dma_tx) == (DmaChEn { cpar: self.txdr, ..*old(dma_tx) }),
    {
        dma_tx.set_paddr(self.txdr);
    }

    /// Returns a future, which resolves on I2C error event.
    pub fn transfer_error(&self) -> (r: TransferError)
        ensures
            !r.done,
    {
        TransferError { done: false }
    }

    /// Returns a future, which resolves on I2C transfer failure event.
    pub fn transfer_break(&self) -> (r: TransferBreak)
        ensures
            !r.done,
    {
        TransferBreak { done: false }
    }

    /// The DMA control register value for a receiving channel: memory
    /// increment, byte-sized words, peripheral-to-memory, transfer-error and
    /// transfer-complete interrupts, channel disabled.
    pub fn init_dma_rx_ccr() -> (r: u32)
        ensures
            r == dma_baseline(false),
    {
        CCR_MINC | CCR_TEIE | CCR_TCIE
    }

    /// The DMA control register value for a transmitting channel: as for a
    /// receiving one, with memory-to-peripheral direction.
    pub fn init_dma_tx_ccr() -> (r: u32)
        ensures
            r == dma_baseline(true),
    {
        CCR_MINC | CCR_TEIE | CCR_TCIE | CCR_DIR
    }

    pub(crate) fn baseline_ccr(write: bool) -> (r: u32)
        ensures
            r == dma_baseline(write),
    {
        if write {
            Self::init_dma_tx_ccr()
        } else {
            Self::init_dma_rx_ccr()
        }
    }

    /// Writes the transaction fields into a CR2 value: address, direction,
    /// byte count, automatic end, 7-bit addressing and the start bit.
    pub fn set_i2c_cr2(&self, val: &mut u32, slave_addr: u8, autoend: bool, nbytes: usize, write: bool)
        requires
            nbytes <= MAX_NBYTES,
        ensures
            *final(val) == cr2_value(*old(val), slave_addr, autoend, nbytes as u32, write),
    {
        let rd_wrn: u32 = if write { 0 } else { CR2_RD_WRN };
        let autoend_bit: u32 = if autoend { CR2_AUTOEND } else { 0 };
        *val = (*val & !CR2_PROGRAM) | (((slave_addr as u32) << 1) & 0xFF) | rd_wrn
            | ((nbytes as u32) << 16) | autoend_bit | CR2_START;
    }

    fn read_impl(
        &mut self,
        dma_rx: &mut DmaChEn,
        buf_addr: usize,
        buf_len: usize,
        slave_addr: u8,
        i2c_cr1_val: u32,
        i2c_cr2_val: u32,
        autoend: bool,
    ) -> (r: I2CTransfer)
        requires
            buf_len <= MAX_NBYTES,
        ensures
            *final(dma_rx) == (DmaChEn {
                cmar: buf_addr,
                cndtr: buf_len,
                ccr: dma_baseline(false) | CCR_EN,
                ..*old(dma_rx)
            }),
            *final(self) == (I2CEn {
                cr1: cr1_armed(i2c_cr1_val, false),
                cr2: cr2_value(i2c_cr2_val, slave_addr, autoend, buf_len as u32, false),
                ..*old(self)
            }),
            r == I2CTransfer::started(false),
    {
        dma_rx.set_maddr(buf_addr);
        dma_rx.set_size(buf_len);
        let rx_ccr = Self::init_dma_rx_ccr() | CCR_EN;
        dma_rx.store_ccr(rx_ccr);
        self.cr1 = i2c_cr1_val | CR1_PE | CR1_ERRIE | CR1_NACKIE | CR1_RXDMAEN;
        let dma_rx_complete = dma_rx.transfer_complete();
        let i2c_break = self.transfer_break();
        let i2c_error = self.transfer_error();
        let mut cr2 = i2c_cr2_val;
        self.set_i2c_cr2(&mut cr2, slave_addr, autoend, buf_len, false);
        self.cr2 = cr2;
        I2CTransfer { write: false, race: Select3::new(dma_rx_complete, i2c_break, i2c_error) }
    }

    fn write_impl(
        &mut self,
        dma_tx: &mut DmaChEn,
        buf_addr: usize,
        buf_len: usize,
        slave_addr: u8,
        i2c_cr1_val: u32,
        i2c_cr2_val: u32,
        autoend: bool,
    ) -> (r: I2CTransfer)
        requires
            buf_len <= MAX_NBYTES,
        ensures
            *final(dma_tx) == (DmaChEn {
                cmar: buf_addr,
                cndtr: buf_len,
                ccr: dma_baseline(true) | CCR_EN,
                ..*old(dma_tx)
            }),
            *final(self) == (I2CEn {
                cr1: cr1_armed(i2c_cr1_val, true),
                cr2: cr2_value(i2c_cr2_val, slave_addr, autoend, buf_len as u32, true),
                ..*old(self)
            }),
            r == I2CTransfer::started(true),
    {
        dma_tx.set_maddr(buf_addr);
        dma_tx.set_size(buf_len);
        let tx_ccr = Self::init_dma_tx_ccr() | CCR_EN;
        dma_tx.store_ccr(tx_ccr);
        self.cr1 = i2c_cr1_val | CR1_PE | CR1_ERRIE | CR1_NACKIE | CR1_TXDMAEN;
        let dma_tx_complete = dma_tx.transfer_complete();
        let i2c_break = self.transfer_break();
        let i2c_error = self.transfer_error();
        let mut cr2 = i2c_cr2_val;
        self.set_i2c_cr2(&mut cr2, slave_addr, autoend, buf_len, true);
        self.cr2 = cr2;
        I2CTransfer { write: true, race: Select3::new(dma_tx_complete, i2c_break, i2c_error) }
    }
}


/// A poll of the error detector reports the first set error flag in the
/// order bus error, overrun, arbitration lost, timeout, SMBus alert, PEC
/// error. It clears that flag only: every other flag keeps its value and can
/// be cleared on its own by a later poll. With no error flag set it stays
/// pending and changes nothing.
pub proof fn lemma_error_priority(f: TransferError, env: I2CFlags)
    requires
        !f.done,
    ensures
        match <TransferError as Pollable<I2CFlags>>::poll_spec(f, env).2 {
            Poll::Ready(e) => {
                let after = <TransferError as Pollable<I2CFlags>>::poll_spec(f, env).1;
                &&& error_flag(env, e)
                &&& forall|e2: I2CError| error_rank(e2) < error_rank(e) ==> !#[trigger] error_flag(env, e2)
                &&& !error_flag(after, e)
                &&& forall|e2: I2CError| e2 != e ==> #[trigger] error_flag(after, e2) == error_flag(env, e2)
                &&& after.nackf == env.nackf && after.stopf == env.stopf
            },
            Poll::Pending => {
                &&& forall|e2: I2CError| !#[trigger] error_flag(env, e2)
                &&& <TransferError as Pollable<I2CFlags>>::poll_spec(f, env).1 == env
            },
        },
{
}

proof fn lemma_baseline_bits()
    by (bit_vector)
    ensures
        (0x80u32 | 0x08u32 | 0x02u32) & 0x01 == 0,
        (0x80u32 | 0x08u32 | 0x02u32) & 0x04 == 0,
        (0x80u32 | 0x08u32 | 0x02u32) & 0x08 != 0,
        (0x80u32 | 0x08u32 | 0x02u32) & 0x02 != 0,
        (0x80u32 | 0x08u32 | 0x02u32) & 0x80 != 0,
        (0x80u32 | 0x08u32 | 0x02u32) & 0x10 == 0,
        (0x80u32 | 0x08u32 | 0x02u32 | 0x10u32) & 0x01 == 0,
        (0x80u32 | 0x08u32 | 0x02u32 | 0x10u32) & 0x04 == 0,
        (0x80u32 | 0x08u32 | 0x02u32 | 0x10u32) & 0x08 != 0,
        (0x80u32 | 0x08u32 | 0x02u32 | 0x10u32) & 0x02 != 0,
        (0x80u32 | 0x08u32 | 0x02u32 | 0x10u32) & 0x80 != 0,
        (0x80u32 | 0x08u32 | 0x02u32 | 0x10u32) & 0x10 != 0,
{
}

/// The baseline control register value: channel disabled, half-transfer
/// interrupt off, transfer-error and transfer-complete interrupts on, memory
/// increment on, direction set exactly for a write.
pub proof fn lemma_baseline_fields(write: bool)
    ensures
        !ccr_en(dma_baseline(write)),
        !ccr_htie(dma_baseline(write)),
        ccr_teie(dma_baseline(write)),
        ccr_tcie(dma_baseline(write)),
        ccr_minc(dma_baseline(write)),
        ccr_dir(dma_baseline(write)) == write,
{
    lemma_baseline_bits();
}

} // verus!
