use stm32_drv::dma::{DmaChEn, DmaTransferError};
use stm32_drv::fib::{IntLine, Poll};
use stm32_drv::i2c::{I2CBreak, I2CDmaError, I2CEn, I2CError, MAX_NBYTES};
use stm32_drv::transfer::I2CTransfer;
use stm32_drv::sess::I2CSess;

const RX_BASELINE: u32 = 0x8A;
const TX_BASELINE: u32 = 0x9A;
const AUTOEND: u32 = 0x0200_0000;

fn periph() -> I2CEn {
    I2CEn::new(0x4000_5424, 0x4000_5428, IntLine::new(), IntLine::new())
}

fn channel() -> DmaChEn {
    DmaChEn::new(IntLine::new())
}

fn poll(t: &mut I2CTransfer, i2c: &mut I2CEn, dma: &mut DmaChEn) -> Poll<Result<(), I2CDmaError>> {
    assert!(t.is_live());
    t.poll(i2c, dma)
}

#[test]
fn successful_read_scenario() {
    let buf = [0u8; 4];
    let mut i2c = periph();
    let mut dma = channel();
    let mut t = i2c.read_and_stop(&mut dma, 0x2000_0000, buf.len(), 0x50, 0, 0);
    assert_eq!(dma.size(), 4);
    assert_eq!(dma.maddr(), 0x2000_0000);
    // memory increment, peripheral-to-memory, error and complete interrupts, enabled
    assert_eq!(dma.ccr(), RX_BASELINE | 1);
    // enable, NACK interrupt, error interrupt, RX DMA requests
    assert_eq!(i2c.cr1(), 0x8091);
    assert_eq!(i2c.cr2(), 0x0204_24A0);
    assert_eq!(poll(&mut t, &mut i2c, &mut dma), Poll::Pending);
    dma.flags.tcif = true;
    assert_eq!(poll(&mut t, &mut i2c, &mut dma), Poll::Ready(Ok(())));
    assert!(!t.is_live());
    assert_eq!(dma.ccr(), RX_BASELINE);
    assert!(!dma.flags.tcif);
    assert!(i2c.int_ev.pending);
    assert!(i2c.int_er.pending);
    assert!(!dma.int_line().pending);
}

#[test]
fn nack_during_write_scenario() {
    let buf = [0xAAu8; 10];
    let mut i2c = periph();
    let mut dma = channel();
    let mut t = i2c.write(&mut dma, 0x2000_0100, buf.len(), 0x20, 0, 0);
    assert_eq!(dma.ccr(), TX_BASELINE | 1);
    assert_eq!(i2c.cr1(), 0x4091);
    assert_eq!(i2c.cr2() & AUTOEND, 0);
    i2c.flags.nackf = true;
    assert_eq!(
        poll(&mut t, &mut i2c, &mut dma),
        Poll::Ready(Err(I2CDmaError::I2CBreak(I2CBreak::Nack)))
    );
    assert!(!i2c.flags.nackf);
    assert_eq!(dma.ccr(), TX_BASELINE);
    assert!(dma.int_line().pending);
    assert!(i2c.int_er.pending);
    assert!(!i2c.int_ev.pending);
}

#[test]
fn dma_error_branch_cleans_up() {
    let mut i2c = periph();
    let mut dma = channel();
    let mut t = i2c.read(&mut dma, 0x2000_0000, 8, 0x10, 0, 0);
    dma.flags.teif = true;
    dma.flags.htif = true;
    assert_eq!(
        poll(&mut t, &mut i2c, &mut dma),
        Poll::Ready(Err(I2CDmaError::Dma(DmaTransferError)))
    );
    assert!(!dma.flags.teif && !dma.flags.htif && !dma.flags.tcif);
    assert_eq!(dma.ccr(), RX_BASELINE);
    assert!(i2c.int_ev.pending && i2c.int_er.pending);
    assert!(!dma.int_line().pending);
}

#[test]
fn peripheral_error_branch_cleans_up() {
    let mut i2c = periph();
    let mut dma = channel();
    let mut t = i2c.write_and_stop(&mut dma, 0x2000_0000, 3, 0x3C, 0, 0);
    i2c.flags.arlo = true;
    assert_eq!(
        poll(&mut t, &mut i2c, &mut dma),
        Poll::Ready(Err(I2CDmaError::I2CError(I2CError::Arlo)))
    );
    assert!(!i2c.flags.arlo);
    assert_eq!(dma.ccr(), TX_BASELINE);
    assert!(dma.int_line().pending && i2c.int_ev.pending);
    assert!(!i2c.int_er.pending);
}

#[test]
fn stop_break_branch() {
    let mut i2c = periph();
    let mut dma = channel();
    let mut t = i2c.read(&mut dma, 0x2000_0000, 2, 0x68, 0, 0);
    i2c.flags.stopf = true;
    assert_eq!(
        poll(&mut t, &mut i2c, &mut dma),
        Poll::Ready(Err(I2CDmaError::I2CBreak(I2CBreak::Stop)))
    );
    assert_eq!(dma.ccr(), RX_BASELINE);
}

#[test]
fn cleanup_reaches_baseline_in_every_branch() {
    for write in [false, true] {
        for branch in 0..4 {
            let mut i2c = periph();
            let mut dma = channel();
            let mut t = if write {
                i2c.write(&mut dma, 0x2000_0000, 5, 0x42, 0, 0)
            } else {
                i2c.read(&mut dma, 0x2000_0000, 5, 0x42, 0, 0)
            };
            assert_eq!(dma.ccr() & 1, 1);
            match branch {
                0 => dma.flags.tcif = true,
                1 => dma.flags.teif = true,
                2 => i2c.flags.nackf = true,
                _ => i2c.flags.timeout = true,
            }
            let r = poll(&mut t, &mut i2c, &mut dma);
            assert!(matches!(r, Poll::Ready(_)));
            assert_eq!(dma.ccr(), if write { TX_BASELINE } else { RX_BASELINE });
            assert_eq!(dma.ccr() & 1, 0);
        }
    }
}

#[test]
fn dma_wins_a_tie() {
    let mut i2c = periph();
    let mut dma = channel();
    let mut t = i2c.read(&mut dma, 0x2000_0000, 1, 0x50, 0, 0);
    dma.flags.tcif = true;
    i2c.flags.nackf = true;
    i2c.flags.berr = true;
    assert_eq!(poll(&mut t, &mut i2c, &mut dma), Poll::Ready(Ok(())));
    // The losing detectors were not polled: their flags are still set.
    assert!(i2c.flags.nackf);
    assert!(i2c.flags.berr);
}

#[test]
fn break_wins_over_error() {
    let mut i2c = periph();
    let mut dma = channel();
    let mut t = i2c.read(&mut dma, 0x2000_0000, 1, 0x50, 0, 0);
    i2c.flags.stopf = true;
    i2c.flags.ovr = true;
    assert_eq!(
        poll(&mut t, &mut i2c, &mut dma),
        Poll::Ready(Err(I2CDmaError::I2CBreak(I2CBreak::Stop)))
    );
    assert!(i2c.flags.ovr);
}

#[test]
fn longest_buffer_is_accepted() {
    let buf = [0u8; 255];
    for write in [false, true] {
        let mut i2c = periph();
        let mut dma = channel();
        let _t = if write {
            i2c.write_and_stop(&mut dma, 0x2000_0000, buf.len(), 0x50, 0, 0)
        } else {
            i2c.read_and_stop(&mut dma, 0x2000_0000, buf.len(), 0x50, 0, 0)
        };
        assert_eq!(buf.len(), MAX_NBYTES);
        assert_eq!(dma.size(), 255);
        assert_eq!((i2c.cr2() >> 16) & 0xFF, 255);
    }
}

#[test]
fn autoend_follows_the_entry_point() {
    let mut i2c = periph();
    let mut dma = channel();
    let _ = i2c.read_and_stop(&mut dma, 0, 1, 0x50, 0, 0);
    assert_eq!(i2c.cr2() & AUTOEND, AUTOEND);
    let _ = i2c.read(&mut dma, 0, 1, 0x50, 0, AUTOEND);
    assert_eq!(i2c.cr2() & AUTOEND, 0);
    let _ = i2c.write_and_stop(&mut dma, 0, 1, 0x50, 0, 0);
    assert_eq!(i2c.cr2() & AUTOEND, AUTOEND);
    let _ = i2c.write(&mut dma, 0, 1, 0x50, 0, AUTOEND);
    assert_eq!(i2c.cr2() & AUTOEND, 0);
}

#[test]
fn cr2_keeps_unrelated_bits() {
    let i2c = periph();
    let mut val: u32 = 0xFFFF_FFFF;
    i2c.set_i2c_cr2(&mut val, 0x50, false, 4, true);
    // address 0xA0, write direction, 7-bit mode, 4 bytes, no autoend
    assert_eq!(val, 0xFD04_F0A0);
}

#[test]
fn cr1_keeps_caller_bits() {
    let mut i2c = periph();
    let mut dma = channel();
    let _ = i2c.read(&mut dma, 0, 1, 0x50, 0x0000_0F00, 0);
    assert_eq!(i2c.cr1(), 0x0000_8F91);
}

#[test]
fn baseline_values() {
    assert_eq!(I2CEn::init_dma_rx_ccr(), RX_BASELINE);
    assert_eq!(I2CEn::init_dma_tx_ccr(), TX_BASELINE);
}

#[test]
fn detectors_start_unresolved() {
    let i2c = periph();
    assert!(!i2c.transfer_break().done);
    assert!(!i2c.transfer_error().done);
}

#[test]
fn session_uses_the_channel_of_each_direction() {
    let mut s = I2CSess::new(periph(), channel(), channel());
    s.dma_init();
    assert_eq!(s.dma_rx().paddr(), 0x4000_5424);
    assert_eq!(s.dma_tx().paddr(), 0x4000_5428);
    let mut t = s.read_and_stop(0x2000_0000, 6, 0x50, 0, 0);
    assert_eq!(s.dma_rx().size(), 6);
    assert_eq!(s.dma_tx().size(), 0);
    s.dma_rx.flags.tcif = true;
    assert_eq!(s.poll(&mut t), Poll::Ready(Ok(())));
    assert_eq!(s.dma_rx().ccr(), RX_BASELINE);
    let mut t = s.write(0x2000_0100, 7, 0x50, 0, 0);
    assert_eq!(s.dma_tx().size(), 7);
    assert_eq!(s.dma_tx().ccr(), TX_BASELINE | 1);
    s.i2c.flags.pecerr = true;
    assert_eq!(
        s.poll(&mut t),
        Poll::Ready(Err(I2CDmaError::I2CError(I2CError::Pecerr)))
    );
    assert_eq!(s.dma_tx().ccr(), TX_BASELINE);
    assert!(s.dma_tx().int_line().pending);
    let (i2c, _, _) = s.free();
    assert!(!i2c.flags.pecerr);
}

#[test]
fn session_write_and_stop_and_read() {
    let mut s = I2CSess::new(periph(), channel(), channel());
    let _ = s.write_and_stop(0x2000_0000, 2, 0x50, 0, 0);
    assert_eq!(s.i2c().cr2() & AUTOEND, AUTOEND);
    assert_eq!(s.i2c().cr2() & 0x400, 0);
    let _ = s.read(0x2000_0000, 2, 0x50, 0, 0);
    assert_eq!(s.i2c().cr2() & AUTOEND, 0);
    assert_eq!(s.i2c().cr2() & 0x400, 0x400);
}
