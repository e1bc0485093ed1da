//! A DMA transaction in flight: the race of its three detectors and the
//! cleanup that follows whichever wins.

use vstd::prelude::*;
use crate::dma::{
    ccr_en, ccr_htie, ccr_tcie, ccr_teie, DmaChEn, DmaChFlags, DmaEvent, DmaTransferError,
    DmaTransferFuture,
};
use crate::fib::{IntLine, Poll, Pollable};
use crate::i2c::{
    dma_baseline, lemma_baseline_fields, I2CBreak, I2CDmaError, I2CEn, I2CError, I2CFlags,
    TransferBreak, TransferError,
};
use crate::select3::{Output3, Select3};

verus! {

/// The flags that one DMA transaction races on: those of its DMA channel and
/// those of the peripheral.
#[derive(Clone, Copy, Debug, PartialEq, Eq)]
pub struct I2CDmaFlags {
    pub dma: DmaChFlags,
    pub i2c: I2CFlags,
}

impl Pollable<I2CDmaFlags> for DmaTransferFuture {
    type Output = Result<(), DmaTransferError>;

    open spec fn live(&self) -> bool {
        !self.done
    }

    open spec fn poll_spec(self, env: I2CDmaFlags) -> (Self, I2CDmaFlags, Poll<Self::Output>) {
        let (f, d, r) = <DmaTransferFuture as Pollable<DmaChFlags>>::poll_spec(self, env.dma);
        (f, I2CDmaFlags { dma: d, ..env }, r)
    }

    proof fn lemma_resolves_once(self, env: I2CDmaFlags) {
        <DmaTransferFuture as Pollable<DmaChFlags>>::lemma_resolves_once(self, env.dma);
    }

    fn poll(&mut self, env: &mut I2CDmaFlags) -> (r: Poll<Result<(), DmaTransferError>>) {
        let mut d = env.dma;
        let r = <DmaTransferFuture as Pollable<DmaChFlags>>::poll(self, &mut d);
        env.dma = d;
        r
    }
}

impl Pollable<I2CDmaFlags> for TransferBreak {
    type Output = I2CBreak;

    open spec fn live(&self) -> bool {
        !self.done
    }

    open spec fn poll_spec(self, env: I2CDmaFlags) -> (Self, I2CDmaFlags, Poll<I2CBreak>) {
        let (f, i, r) = <TransferBreak as Pollable<I2CFlags>>::poll_spec(self, env.i2c);
        (f, I2CDmaFlags { i2c: i, ..env }, r)
    }

    proof fn lemma_resolves_once(self, env: I2CDmaFlags) {
        <TransferBreak as Pollable<I2CFlags>>::lemma_resolves_once(self, env.i2c);
    }

    fn poll(&mut self, env: &mut I2CDmaFlags) -> (r: Poll<I2CBreak>) {
        let mut i = env.i2c;
        let r = <TransferBreak as Pollable<I2CFlags>>::poll(self, &mut i);
        env.i2c = i;
        r
    }
}

impl Pollable<I2CDmaFlags> for TransferError {
    type Output = I2CError;

    open spec fn live(&self) -> bool {
        !self.done
    }

    open spec fn poll_spec(self, env: I2CDmaFlags) -> (Self, I2CDmaFlags, Poll<I2CError>) {
        let (f, i, r) = <TransferError as Pollable<I2CFlags>>::poll_spec(self, env.i2c);
        (f, I2CDmaFlags { i2c: i, ..env }, r)
    }

    proof fn lemma_resolves_once(self, env: I2CDmaFlags) {
        <TransferError as Pollable<I2CFlags>>::lemma_resolves_once(self, env.i2c);
    }

    fn poll(&mut self, env: &mut I2CDmaFlags) -> (r: Poll<I2CError>) {
        let mut i = env.i2c;
        let r = <TransferError as Pollable<I2CFlags>>::poll(self, &mut i);
        env.i2c = i;
        r
    }
}

/// The race of one transaction: DMA completion, transfer break, transfer
/// error, polled in that order.
pub type I2CRace = Select3<DmaTransferFuture, TransferBreak, TransferError>;

/// How the race of one transaction resolved.
pub type I2COutput = Output3<DmaTransferFuture, TransferBreak, TransferError, I2CDmaFlags>;

/// What a transaction returns for the way its race resolved.
pub open spec fn race_result(out: I2COutput) -> Result<(), I2CDmaError> {
    match out {
        Output3::A(Ok(()), _, _) => Ok(()),
        Output3::A(Err(e), _, _) => Err(I2CDmaError::Dma(e)),
        Output3::B(_, b, _) => Err(I2CDmaError::I2CBreak(b)),
        Output3::C(_, _, e) => Err(I2CDmaError::I2CError(e)),
    }
}

/// The DMA channel's line is flushed when a peripheral detector won.
pub open spec fn flushes_dma(out: I2COutput) -> bool {
    out is B || out is C
}

/// The peripheral's event line is flushed unless the break detector won.
pub open spec fn flushes_ev(out: I2COutput) -> bool {
    out is A || out is C
}

/// The peripheral's error line is flushed unless the error detector won.
pub open spec fn flushes_er(out: I2COutput) -> bool {
    out is A || out is B
}

/// An interrupt line after a flush when `flush` holds, else unchanged.
pub open spec fn flushed(line: IntLine, flush: bool) -> IntLine {
    if flush {
        IntLine { pending: true }
    } else {
        line
    }
}

/// A DMA transaction in flight: the suspended read or write, polled once per
/// interrupt occurrence until it resolves.
#[derive(Debug)]
pub struct I2CTransfer {
    /// Memory-to-peripheral transaction.
    pub write: bool,
    /// The race of the three detectors.
    pub race: I2CRace,
}

impl I2CTransfer {
    /// A transaction just started in direction `write`: three fresh detectors.
    pub open spec fn started(write: bool) -> I2CTransfer {
        I2CTransfer {
            write,
            race: Select3(
                Some(
                    (
                        DmaTransferFuture { event: DmaEvent::TransferComplete, done: false },
                        TransferBreak { done: false },
                        TransferError { done: false },
                    ),
                ),
            ),
        }
    }

    /// The transaction has not resolved yet.
    pub open spec fn live(&self) -> bool {
        <I2CRace as Pollable<I2CDmaFlags>>::live(&self.race)
    }

    /// One poll of the transaction: the race is polled on the channel's and
    /// the peripheral's flags. When it resolves, the channel's control
    /// register goes back to the baseline, the two interrupt lines other than
    /// the winner's are flushed, and the winner's value becomes the result.
    pub open spec fn step(self, i2c: I2CEn, dma: DmaChEn) -> (I2CTransfer, I2CEn, DmaChEn, Poll<Result<(), I2CDmaError>>) {
        let env = I2CDmaFlags { dma: dma.flags, i2c: i2c.flags };
        let (race1, env1, r) = <I2CRace as Pollable<I2CDmaFlags>>::poll_spec(self.race, env);
        let t1 = I2CTransfer { race: race1, ..self };
        let i2c1 = I2CEn { flags: env1.i2c, ..i2c };
        let dma1 = DmaChEn { flags: env1.dma, ..dma };
        match r {
            Poll::Pending => (t1, i2c1, dma1, Poll::Pending),
            Poll::Ready(out) => (
                t1,
                I2CEn {
                    int_ev: flushed(i2c1.int_ev, flushes_ev(out)),
                    int_er: flushed(i2c1.int_er, flushes_er(out)),
                    ..i2c1
                },
                DmaChEn {
                    ccr: dma_baseline(self.write),
                    int_line: flushed(dma1.int_line, flushes_dma(out)),
                    ..dma1
                },
                Poll::Ready(race_result(out)),
            ),
        }
    }

    /// Whether the transaction has not resolved yet.
    pub fn is_live(&self) -> (r: bool)
        ensures
            r == self.live(),
    {
        match &self.race.0 {
            Some((d, b, e)) => !d.done && !b.done && !e.done,
            None => false,
        }
    }

    /// Polls the transaction once, on the flags of `i2c` and `dma`.
    pub fn poll(&mut self, i2c: &mut I2CEn, dma: &mut DmaChEn) -> (r: Poll<Result<(), I2CDmaError>>)
        requires
            old(self).live(),
        ensures
            (*final(self), *final(i2c), *final(dma), r) == old(self).step(*old(i2c), *old(dma)),
    {
        let mut env = I2CDmaFlags { dma: dma.flags, i2c: i2c.flags };
        let polled = <I2CRace as Pollable<I2CDmaFlags>>::poll(&mut self.race, &mut env);
        dma.flags = env.dma;
        i2c.flags = env.i2c;
        match polled {
            Poll::Pending => Poll::Pending,
            Poll::Ready(Output3::A(res, _i2c_break, _i2c_error)) => {
                // The pending detectors are dropped at the end of this arm.
                dma.store_ccr(I2CEn::baseline_ccr(self.write));
                i2c.int_ev.trigger();
                i2c.int_er.trigger();
                match res {
                    Ok(()) => Poll::Ready(Ok(())),
                    Err(e) => Poll::Ready(Err(I2CDmaError::Dma(e))),
                }
            },
            Poll::Ready(Output3::B(_dma_fut, i2c_break, _i2c_error)) => {
                dma.store_ccr(I2CEn::baseline_ccr(self.write));
                dma.int_line.trigger();
                i2c.int_er.trigger();
                Poll::Ready(Err(I2CDmaError::I2CBreak(i2c_break)))
            },
            Poll::Ready(Output3::C(_dma_fut, _i2c_break, i2c_error)) => {
                dma.store_ccr(I2CEn::baseline_ccr(self.write));
                dma.int_line.trigger();
                i2c.int_ev.trigger();
                Poll::Ready(Err(I2CDmaError::I2CError(i2c_error)))
            },
        }
    }
}

/// Whichever of the four outcomes a transaction resolves with, its DMA
/// channel's control register ends at the baseline of its direction, with
/// the channel disabled; while it is unresolved the register is untouched.
pub proof fn lemma_cleanup_symmetry(t: I2CTransfer, i2c: I2CEn, dma: DmaChEn)
    requires
        t.live(),
    ensures
        t.step(i2c, dma).3 is Ready ==> {
            &&& t.step(i2c, dma).2.ccr == dma_baseline(t.write)
            &&& !ccr_en(t.step(i2c, dma).2.ccr)
            &&& !ccr_htie(t.step(i2c, dma).2.ccr)
            &&& ccr_teie(t.step(i2c, dma).2.ccr)
            &&& ccr_tcie(t.step(i2c, dma).2.ccr)
        },
        t.step(i2c, dma).3 is Pending ==> t.step(i2c, dma).2.ccr == dma.ccr,
{
    lemma_baseline_fields(t.write);
}

/// A transaction resolves at most once: a poll returns a result exactly when
/// it leaves the transaction spent, so it cannot be polled again.
pub proof fn lemma_transfer_resolves_once(t: I2CTransfer, i2c: I2CEn, dma: DmaChEn)
    requires
        t.live(),
    ensures
        (t.step(i2c, dma).3 is Ready) <==> !t.step(i2c, dma).0.live(),
{
    let env = I2CDmaFlags { dma: dma.flags, i2c: i2c.flags };
    <I2CRace as Pollable<I2CDmaFlags>>::lemma_resolves_once(t.race, env);
}

/// A resolved transaction reports exactly one of success, DMA error, break
/// or peripheral error, according to the one source that won the race; the
/// two losing detectors were still unresolved when they were handed back,
/// and exactly the interrupt lines of the two losing sources are flushed.
pub proof fn lemma_outcome_exclusive(t: I2CTransfer, i2c: I2CEn, dma: DmaChEn)
    requires
        t.live(),
        !i2c.int_ev.pending,
        !i2c.int_er.pending,
        !dma.int_line.pending,
    ensures
        match <I2CRace as Pollable<I2CDmaFlags>>::poll_spec(
            t.race,
            I2CDmaFlags { dma: dma.flags, i2c: i2c.flags },
        ).2 {
            Poll::Ready(out) => {
                let (_, i2c1, dma1, r) = t.step(i2c, dma);
                &&& r == Poll::Ready(race_result(out))
                &&& match out {
                    Output3::A(res, b, e) => {
                        &&& !b.done && !e.done
                        &&& (res is Ok <==> r == Poll::<Result<(), I2CDmaError>>::Ready(Ok(())))
                        &&& !dma1.int_line.pending && i2c1.int_ev.pending && i2c1.int_er.pending
                    },
                    Output3::B(d, _, e) => {
                        &&& !d.done && !e.done
                        &&& dma1.int_line.pending && !i2c1.int_ev.pending && i2c1.int_er.pending
                    },
                    Output3::C(d, b, _) => {
                        &&& !d.done && !b.done
                        &&& dma1.int_line.pending && i2c1.int_ev.pending && !i2c1.int_er.pending
                    },
                }
            },
            Poll::Pending => t.step(i2c, dma).3 is Pending,
        },
{
    let env = I2CDmaFlags { dma: dma.flags, i2c: i2c.flags };
    crate::select3::lemma_race_hands_back::<I2CDmaFlags, DmaTransferFuture, TransferBreak, TransferError>(t.race, env);
}

} // verus!
