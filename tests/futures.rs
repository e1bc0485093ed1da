use stm32_drv::dma::{DmaChEn, DmaChFlags, DmaEvent, DmaTransferError, DmaTransferFuture};
use stm32_drv::fib::{FlagFuture, IntLine, Poll, Pollable};
use stm32_drv::i2c::{I2CBreak, I2CDmaError, I2CError, I2CFlags, TransferBreak, TransferError};
use stm32_drv::transfer::I2CDmaFlags;
use stm32_drv::select3::{Output3, Select3};

#[test]
fn transfer_complete_resolves_on_its_flag() {
    let ch = DmaChEn::new(IntLine::new());
    let mut f = ch.transfer_complete();
    let mut flags = DmaChFlags::new();
    assert_eq!(f.poll(&mut flags), Poll::Pending);
    flags.htif = true;
    assert_eq!(f.poll(&mut flags), Poll::Pending);
    flags.tcif = true;
    assert_eq!(f.poll(&mut flags), Poll::Ready(Ok(())));
    assert!(f.done);
    assert!(!flags.tcif);
    assert!(flags.htif);
}

#[test]
fn half_transfer_resolves_on_its_flag() {
    let ch = DmaChEn::new(IntLine::new());
    let mut f = ch.half_transfer();
    assert_eq!(f.event, DmaEvent::HalfTransfer);
    let mut flags = DmaChFlags { tcif: true, htif: false, teif: false };
    assert_eq!(f.poll(&mut flags), Poll::Pending);
    flags.htif = true;
    assert_eq!(f.poll(&mut flags), Poll::Ready(Ok(())));
    assert!(!flags.htif);
    assert!(flags.tcif);
}

#[test]
fn transfer_error_takes_priority_and_clears_all() {
    let mut f = DmaTransferFuture::new(DmaEvent::TransferComplete);
    let mut flags = DmaChFlags { tcif: true, htif: true, teif: true };
    assert!(flags.gif());
    assert_eq!(f.poll(&mut flags), Poll::Ready(Err(DmaTransferError)));
    assert_eq!(flags, DmaChFlags::new());
    assert!(!flags.gif());
}

#[test]
fn channel_registers() {
    let mut ch = DmaChEn::new(IntLine::new());
    ch.set_size(0xFFFF);
    ch.set_maddr(0x2000_1000);
    ch.set_paddr(0x4000_5424);
    ch.store_ccr(0x8B);
    assert_eq!(ch.size(), 0xFFFF);
    assert_eq!(ch.maddr(), 0x2000_1000);
    assert_eq!(ch.paddr(), 0x4000_5424);
    assert_eq!(ch.ccr(), 0x8B);
    assert!(!ch.int_line().pending);
}

#[test]
fn break_detector_prefers_nack() {
    let mut f = TransferBreak { done: false };
    let mut flags = I2CFlags::new();
    assert_eq!(Pollable::<I2CFlags>::poll(&mut f, &mut flags), Poll::Pending);
    flags.nackf = true;
    flags.stopf = true;
    assert_eq!(Pollable::<I2CFlags>::poll(&mut f, &mut flags), Poll::Ready(I2CBreak::Nack));
    assert!(!flags.nackf);
    assert!(flags.stopf);
}

#[test]
fn error_priority_bus_error_before_overrun() {
    let mut flags = I2CFlags::new();
    flags.berr = true;
    flags.ovr = true;
    let mut f = TransferError { done: false };
    assert_eq!(Pollable::<I2CFlags>::poll(&mut f, &mut flags), Poll::Ready(I2CError::Berr));
    assert!(!flags.berr);
    assert!(flags.ovr);
    let mut g = TransferError { done: false };
    assert_eq!(Pollable::<I2CFlags>::poll(&mut g, &mut flags), Poll::Ready(I2CError::Ovr));
    assert_eq!(flags, I2CFlags::new());
}

#[test]
fn error_priority_full_order() {
    let order = [
        I2CError::Berr,
        I2CError::Ovr,
        I2CError::Arlo,
        I2CError::Timeout,
        I2CError::Alert,
        I2CError::Pecerr,
    ];
    let mut flags = I2CFlags {
        nackf: false,
        stopf: false,
        berr: true,
        ovr: true,
        arlo: true,
        timeout: true,
        alert: true,
        pecerr: true,
    };
    for expected in order {
        let mut f = TransferError { done: false };
        assert_eq!(Pollable::<I2CFlags>::poll(&mut f, &mut flags), Poll::Ready(expected));
    }
    let mut f = TransferError { done: false };
    assert_eq!(Pollable::<I2CFlags>::poll(&mut f, &mut flags), Poll::Pending);
    assert!(!f.done);
}

fn race() -> Select3<DmaTransferFuture, TransferBreak, TransferError> {
    Select3::new(
        DmaTransferFuture::new(DmaEvent::TransferComplete),
        TransferBreak { done: false },
        TransferError { done: false },
    )
}

fn quiet() -> I2CDmaFlags {
    I2CDmaFlags { dma: DmaChFlags::new(), i2c: I2CFlags::new() }
}

#[test]
fn race_resolves_with_first_ready_in_order() {
    let mut s = race();
    let mut env = quiet();
    env.dma.tcif = true;
    env.i2c.nackf = true;
    env.i2c.berr = true;
    match s.poll(&mut env) {
        Poll::Ready(Output3::A(Ok(()), b, c)) => {
            assert!(!b.done);
            assert!(!c.done);
        }
        _ => panic!("A should win"),
    }
    assert!(!s.is_armed());
    assert!(env.i2c.nackf && env.i2c.berr);
}

#[test]
fn race_second_and_third() {
    let mut s = race();
    let mut env = quiet();
    env.i2c.stopf = true;
    env.i2c.alert = true;
    match s.poll(&mut env) {
        Poll::Ready(Output3::B(a, I2CBreak::Stop, c)) => {
            assert!(!a.done);
            assert!(!c.done);
        }
        _ => panic!("B should win"),
    }
    let mut s = race();
    let mut env = quiet();
    env.i2c.alert = true;
    match s.poll(&mut env) {
        Poll::Ready(Output3::C(a, b, I2CError::Alert)) => {
            assert!(!a.done);
            assert!(!b.done);
        }
        _ => panic!("C should win"),
    }
}

#[test]
fn race_pending_keeps_all_three() {
    let mut s = race();
    let mut env = quiet();
    assert!(matches!(s.poll(&mut env), Poll::Pending));
    assert!(s.is_armed());
    env.dma.teif = true;
    assert!(matches!(s.poll(&mut env), Poll::Ready(Output3::A(Err(DmaTransferError), _, _))));
    assert!(!s.is_armed());
}

#[test]
fn flag_future_clears_its_flag() {
    let mut f = FlagFuture::new();
    let mut flag = false;
    assert_eq!(f.poll(&mut flag), Poll::Pending);
    flag = true;
    assert_eq!(f.poll(&mut flag), Poll::Ready(()));
    assert!(!flag);
    assert!(f.done);
}

#[test]
fn interrupt_line_trigger() {
    let mut l = IntLine::new();
    assert!(!l.pending);
    l.trigger();
    assert!(l.pending);
}

#[test]
fn error_messages() {
    assert_eq!(DmaTransferError.message(), "DMA transfer error.");
    assert_eq!(I2CError::Berr.message(), "I2C bus error.");
    assert_eq!(I2CError::Ovr.message(), "I2C overrun.");
    assert_eq!(I2CError::Arlo.message(), "I2C arbitration lost.");
    assert_eq!(I2CError::Timeout.message(), "I2C timeout.");
    assert_eq!(I2CError::Alert.message(), "I2C SMBus alert.");
    assert_eq!(I2CError::Pecerr.message(), "I2C PEC error.");
    assert_eq!(I2CBreak::Nack.message(), "I2C NACK received.");
    assert_eq!(I2CBreak::Stop.message(), "I2C STOP received.");
    assert_eq!(I2CDmaError::Dma(DmaTransferError).message(), "DMA error: DMA transfer error.");
    assert_eq!(I2CDmaError::I2CBreak(I2CBreak::Nack).message(), "I2C failure: I2C NACK received.");
    assert_eq!(I2CDmaError::I2CError(I2CError::Timeout).message(), "I2C error: I2C timeout.");
}

#[test]
fn error_conversions() {
    assert_eq!(I2CDmaError::from(DmaTransferError), I2CDmaError::Dma(DmaTransferError));
    assert_eq!(I2CDmaError::from(I2CBreak::Stop), I2CDmaError::I2CBreak(I2CBreak::Stop));
    assert_eq!(I2CDmaError::from(I2CError::Arlo), I2CDmaError::I2CError(I2CError::Arlo));
}
