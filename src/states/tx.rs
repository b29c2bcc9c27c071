//! Transmission: the decisions of the transmit protocol.
//!
//! A wait first asks [Tx::already_done]. Then the caller waits for the interrupt pin to go
//! low, racing a timeout of [TX_WAIT_TIMEOUT_MS]. On a timeout it reads MC_STATE0, hands the
//! state to [check_tx_timeout_state] and, where that allows it, waits again. On the interrupt
//! it reads the interrupt status and hands it to [Tx::handle_interrupt], which says what to
//! do next.
use core::marker::PhantomData;
use vstd::prelude::*;

use super::{Ready, Tx};
use crate::ll::{IrqStatus, RegOp, State, CMD_FLUSH_TX_FIFO, CMD_SABORT};
use crate::Error;

verus! {

/// How long one wait for the interrupt lasts before the chip's state is checked
pub const TX_WAIT_TIMEOUT_MS: u32 = 1000;

/// The result of the TX operation
#[derive(Clone, Copy, Debug, PartialEq, Eq)]
pub enum TxResult {
    /// All went fine and the packet is sent
    Sent,
    /// There was trouble keeping the fifo full.
    /// This may be a performance issue where polling isn't happening fast enough.
    ///
    /// The transmission has been aborted.
    FifoError,
    /// The tx retries have reached their maximum. The packet has been sent, but no ack was received.
    MaxReTxReached,
    /// The Csma/ca engine did not find a good time to send the packet. The packet has not been sent.
    MaxBackoffReached,
    /// The transmission was already done previously
    TxAlreadyDone,
}

/// What the caller does after an interrupt of a transmission
#[derive(Clone, Copy, Debug, PartialEq, Eq)]
pub enum TxStep {
    /// Abort and flush the TX FIFO ([tx_abort_ops]), then return [TxResult::FifoError]
    AbortAndFlush,
    /// Write [Tx::remaining] into the FIFO, hand the number of bytes written to
    /// [Tx::advance], and wait again
    Refill,
    /// Return the result
    Finished(TxResult),
    /// The interrupt is of no concern to the transmission: wait again
    Ignore,
}

impl TxStep {
    /// Whether the wait ends with this step
    pub open spec fn is_terminal(self) -> bool {
        self is AbortAndFlush || self is Finished
    }
}

/// The step an interrupt status leads to: a FIFO error first, then a refill, then the
/// completion flags in the order data sent, maximum retransmissions, maximum backoffs
pub open spec fn spec_tx_step(irq: IrqStatus) -> TxStep {
    if irq.tx_fifo_error {
        TxStep::AbortAndFlush
    } else if irq.tx_fifo_almost_empty {
        TxStep::Refill
    } else if irq.tx_data_sent {
        TxStep::Finished(TxResult::Sent)
    } else if irq.max_re_tx_reach {
        TxStep::Finished(TxResult::MaxReTxReached)
    } else if irq.max_bo_cca_reach {
        TxStep::Finished(TxResult::MaxBackoffReached)
    } else {
        TxStep::Ignore
    }
}

/// The commands that stop a transmission: abort, then flush the TX FIFO
pub fn tx_abort_ops() -> (r: [RegOp; 2])
    ensures
        r@ == seq![RegOp::Command { command: CMD_SABORT }, RegOp::Command { command: CMD_FLUSH_TX_FIFO }],
{
    let r = [RegOp::Command { command: CMD_SABORT }, RegOp::Command { command: CMD_FLUSH_TX_FIFO }];
    assert(r@ =~= seq![RegOp::Command { command: CMD_SABORT }, RegOp::Command { command: CMD_FLUSH_TX_FIFO }]);
    r
}

/// Decide on the chip state read after a wait timed out (`None` where the read failed or the
/// value names no state): no state or the lock state means the chip is stuck; any other
/// state lets the wait go on.
pub fn check_tx_timeout_state<S, D, G>(state: Option<State>) -> (r: Result<(), Error<S, D, G>>)
    ensures
        r == (match state {
            Some(State::Lockst) | None => Err(Error::<S, D, G>::BadState),
            _ => Ok(()),
        }),
{
    match state {
        Some(State::Lockst) | None => Err(Error::BadState),
        _ => Ok(()),
    }
}

impl<'buffer, PF> Tx<'buffer, PF> {
    /// The first step of a wait: once the transmission has reached its result, every wait
    /// returns [TxResult::TxAlreadyDone] at once, without bus access.
    pub fn already_done(&self) -> (r: Option<TxResult>)
        ensures
            r == self.spec_wait_result(),
    {
        if self.tx_done {
            Some(TxResult::TxAlreadyDone)
        } else {
            None
        }
    }

    /// What the first step of a wait returns
    pub open spec fn spec_wait_result(self) -> Option<TxResult> {
        if self.spec_done() {
            Some(TxResult::TxAlreadyDone)
        } else {
            None
        }
    }

    /// The state after an interrupt: done once the step is terminal, the rest unchanged
    pub closed spec fn spec_after_interrupt(self, irq: IrqStatus) -> Self {
        Tx { tx_done: self.tx_done || spec_tx_step(irq).is_terminal(), ..self }
    }

    /// Decide what an interrupt of a running transmission means.
    pub fn handle_interrupt(&mut self, irq: IrqStatus) -> (r: TxStep)
        requires
            !old(self).spec_done(),
        ensures
            r == spec_tx_step(irq),
            *final(self) == old(self).spec_after_interrupt(irq),
            final(self).spec_done() == r.is_terminal(),
            final(self).spec_remaining() == old(self).spec_remaining(),
            final(self).spec_digital_frequency() == old(self).spec_digital_frequency(),
    {
        let step = if irq.tx_fifo_error {
            TxStep::AbortAndFlush
        } else if irq.tx_fifo_almost_empty {
            TxStep::Refill
        } else if irq.tx_data_sent {
            TxStep::Finished(TxResult::Sent)
        } else if irq.max_re_tx_reach {
            TxStep::Finished(TxResult::MaxReTxReached)
        } else if irq.max_bo_cca_reach {
            TxStep::Finished(TxResult::MaxBackoffReached)
        } else {
            TxStep::Ignore
        };
        match step {
            TxStep::AbortAndFlush | TxStep::Finished(_) => {
                self.tx_done = true;
            },
            _ => {},
        }
        step
    }

    /// The part of the payload that is not in the FIFO yet
    pub fn remaining(&self) -> (r: &'buffer [u8])
        ensures
            r@ == self.spec_remaining(),
    {
        self.tx_buffer
    }

    /// Record that the first `written` bytes of the remaining payload went into the FIFO
    pub fn advance(&mut self, written: usize)
        requires
            written <= old(self).spec_remaining().len(),
        ensures
            final(self).spec_remaining() == old(self).spec_remaining().subrange(
                written as int,
                old(self).spec_remaining().len() as int,
            ),
            final(self).spec_done() == old(self).spec_done(),
            final(self).spec_digital_frequency() == old(self).spec_digital_frequency(),
    {
        self.tx_buffer = vstd::slice::slice_subrange(self.tx_buffer, written, self.tx_buffer.len());
    }

    /// Aborts the transmission immediately: abort and flush the TX FIFO ([tx_abort_ops]).
    pub fn abort(self) -> (r: (Ready<PF>, [RegOp; 2]))
        ensures
            r.0.spec_digital_frequency() == self.spec_digital_frequency(),
            r.1@ == seq![RegOp::Command { command: CMD_SABORT }, RegOp::Command { command: CMD_FLUSH_TX_FIFO }],
    {
        (Ready::new(self.digital_frequency), tx_abort_ops())
    }

    /// Finish the transmission. This only returns ok when the wait has reached its result.
    /// If you need to stop the transmission before it's done, call [Self::abort].
    pub fn finish(self) -> (r: Result<Ready<PF>, Self>)
        ensures
            match r {
                Ok(ready) => self.spec_done() && ready.spec_digital_frequency()
                    == self.spec_digital_frequency(),
                Err(tx) => !self.spec_done() && tx == self,
            },
    {
        if self.tx_done {
            Ok(Ready::new(self.digital_frequency))
        } else {
            Err(self)
        }
    }
}

/// A wait that has ended stays ended: after an interrupt whose step is terminal, the next
/// wait returns [TxResult::TxAlreadyDone] without bus access, and so does the one after any
/// further interrupt.
pub proof fn lemma_tx_wait_idempotent<'buffer, PF>(
    tx: Tx<'buffer, PF>,
    irq: IrqStatus,
    later: IrqStatus,
)
    requires
        !tx.spec_done(),
        spec_tx_step(irq).is_terminal(),
    ensures
        tx.spec_after_interrupt(irq).spec_wait_result() == Some(TxResult::TxAlreadyDone),
        tx.spec_after_interrupt(irq).spec_after_interrupt(later).spec_wait_result() == Some(
            TxResult::TxAlreadyDone,
        ),
{
}

} // verus!
