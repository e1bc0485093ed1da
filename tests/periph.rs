use stm32_drv::dma::DmaChEn;
use stm32_drv::fib::{IntLine, Poll, Pollable};
use stm32_drv::i2c::I2CEn;
use stm32_drv::rcc::{Gated, PeriphClock};
use stm32_drv::spi::{SpiEn, SpiError};
use stm32_drv::tim::TimEn;
use stm32_drv::uart::{TransmissionComplete, UartEn, UartRxOverflow, UartTcFlags};

fn spi() -> SpiEn {
    SpiEn::new(0x4001_300C, IntLine::new())
}

#[test]
fn spi_error_order() {
    let s = spi();
    assert_eq!(s.spi_errck(0), Ok(()));
    assert_eq!(s.spi_errck(0x0010), Err(SpiError::Crcerr));
    assert_eq!(s.spi_errck(0x0020 | 0x0010), Err(SpiError::Modf));
    assert_eq!(s.spi_errck(0x0040 | 0x0020 | 0x0010), Err(SpiError::Ovr));
    assert_eq!(s.spi_errck(0x0083), Ok(()));
}

#[test]
fn spi_frame_8() {
    let s = spi();
    let mut cr2: u32 = 0;
    s.set_frame_8(&mut cr2);
    assert_eq!(cr2, 0x1700);
    let mut cr2: u32 = 0xFFFF;
    s.set_frame_8(&mut cr2);
    assert_eq!(cr2, 0xF7FF);
}

#[test]
fn spi_registers_and_dma() {
    let s = spi();
    assert_eq!(s.cr1(), 0);
    assert_eq!(s.cr2(), 0x0700);
    assert_eq!(s.sr(), 0x0002);
    assert!(!s.int_line().pending);
    let mut rx = DmaChEn::new(IntLine::new());
    let mut tx = DmaChEn::new(IntLine::new());
    s.dma_rx_paddr_init(&mut rx);
    s.dma_tx_paddr_init(&mut tx);
    assert_eq!(rx.paddr(), 0x4001_300C);
    assert_eq!(tx.paddr(), 0x4001_300C);
}

#[test]
fn spi_messages() {
    assert_eq!(SpiError::Crcerr.message(), "SPI CRC mismatch.");
    assert_eq!(SpiError::Ovr.message(), "SPI queue overrun.");
    assert_eq!(SpiError::Modf.message(), "SPI mode fault.");
}

#[test]
fn uart_transmission_complete() {
    let u = UartEn::new(0x4001_3824, 0x4001_3828, IntLine::new());
    let mut f: TransmissionComplete = u.transmission_complete();
    let mut flags = UartTcFlags { tc: false, tcie: true };
    assert_eq!(f.poll(&mut flags), Poll::Pending);
    assert!(flags.tcie);
    flags.tc = true;
    assert_eq!(f.poll(&mut flags), Poll::Ready(()));
    assert!(!flags.tcie);
    assert!(flags.tc);
}

#[test]
fn uart_rx_fiber_and_dma() {
    let u = UartEn::new(0x4001_3824, 0x4001_3828, IntLine::new());
    assert_eq!(u.rx_stream_fib(true, 0x5A), Some(0x5A));
    assert_eq!(u.rx_stream_fib(false, 0x5A), None);
    assert_eq!(UartRxOverflow.message(), "UART RX stream overflow.");
    let mut rx = DmaChEn::new(IntLine::new());
    let mut tx = DmaChEn::new(IntLine::new());
    u.dma_rx_paddr_init(&mut rx);
    u.dma_tx_paddr_init(&mut tx);
    assert_eq!(rx.paddr(), 0x4001_3824);
    assert_eq!(tx.paddr(), 0x4001_3828);
}

#[test]
fn timer_presc_and_sleep() {
    let mut t = TimEn::new();
    t.uif = true;
    t.presc(7999);
    assert_eq!(t.psc, 7999);
    assert_eq!(t.dier, 1);
    assert_eq!(t.egr, 1);
    assert!(!t.uif);
    t.cnt = 123;
    let mut f = t.sleep(500);
    assert_eq!(t.cnt, 0);
    assert_eq!(t.arr, 500);
    assert_eq!(t.cr1, 0x0D);
    assert_eq!(f.poll(&mut t.uif), Poll::Pending);
    t.uif = true;
    assert_eq!(f.poll(&mut t.uif), Poll::Ready(()));
    assert!(!t.uif);
    t.schedule(100, false);
    assert_eq!(t.cr1, 0x05);
    t.stop();
    assert_eq!(t.cr1, 0);
}

#[test]
fn clock_gate() {
    let mut c = PeriphClock::new();
    assert!(!c.is_enabled());
    c.enable();
    assert!(c.is_enabled());
    c.clock_sel(0b10);
    c.enable_stop_mode();
    c.reset();
    assert_eq!(c, PeriphClock { enabled: true, reset: true, stop_mode: true, clock_sel: 0b10 });
    c.disable_stop_mode();
    c.disable();
    assert!(!c.is_enabled());
    assert!(!c.stop_mode);
}

#[test]
fn gated_driver() {
    let i2c = I2CEn::new(0x4000_5424, 0x4000_5428, IntLine::new(), IntLine::new());
    let mut g = Gated::new(i2c);
    assert!(!g.clock.is_enabled());
    let en = g.enable();
    en.timingr = 0x1090_9CEC;
    assert!(g.clock.is_enabled());
    assert_eq!(g.periph.timingr(), 0x1090_9CEC);
    g.disable();
    assert!(!g.clock.is_enabled());
    let i2c = g.free();
    assert_eq!(i2c.timingr(), 0x1090_9CEC);
}
