//! Interrupt-driven completion futures and DMA transaction logic for STM32
//! peripheral drivers.
//!
//! Hardware registers are modelled as plain values: status flags as `bool`
//! fields, control registers as `u32` words. A driver loop outside the library
//! copies the flags in before each poll and writes the registers back after it.

pub mod fib;
pub mod dma;
pub mod select3;
pub mod i2c;
pub mod transfer;
pub mod sess;
pub mod uart;
pub mod spi;
pub mod tim;
pub mod rcc;

