//! What the driver reads from the hardware and what it asks of it.
//!
//! The driver never touches a register. A function that depends on the
//! state of the transfer hardware takes a `DmaStatus`, and a function that
//! wants something done on the bus returns a `Plan`: a short, fixed list of
//! `BusOp`s that the caller performs one after the other.

use vstd::prelude::*;

verus! {

/// Number of half-words in one transfer record: one per cascaded chip.
pub const RECORD_WORDS: u16 = 4;

/// The state of the transfer hardware, as it was read.
#[derive(Clone, Copy, Debug, PartialEq, Eq, Structural)]
pub struct DmaStatus {
    /// The transfer stream is switched on: it may be reading the queue.
    pub stream_enabled: bool,
    /// The stream has raised its "transfer complete" flag.
    pub transfer_complete: bool,
}

/// One thing to do on the bus.
#[derive(Clone, Copy, Debug, PartialEq, Eq, Structural)]
pub enum BusOp {
    /// Wait until the transfer stream is switched off.
    WaitTransferIdle,
    /// Point the transfer stream at the staged record `index` and set its
    /// length to `count` half-words.
    TransferArm { index: usize, count: u16 },
    /// Pull chip-select low: the chips listen.
    ChipSelectAssert,
    /// Switch the serial engine on.
    SerialEnable,
    /// Clear the stream's "transfer complete" flag.
    TransferClearComplete,
    /// Clear all interrupt flags of the stream.
    TransferClearInterrupt,
    /// Switch the transfer stream on.
    TransferStart,
    /// Wait until the serial engine has sent everything it was given.
    WaitSerialIdle,
    /// Release chip-select: the chips latch what was shifted in.
    ChipSelectDeassert,
    /// Give the chips the time they need to latch.
    Settle,
    /// Switch the serial engine off.
    SerialDisable,
}

/// A fixed sequence of bus operations.
#[derive(Clone, Copy, Debug, PartialEq, Eq, Structural)]
pub enum Plan {
    /// Nothing to do.
    Idle,
    /// Start streaming with the first staged record.
    Start,
    /// Latch the record that was just sent and send the staged record
    /// `index`.
    Next { index: usize },
    /// Latch the record that was just sent; it was the last one.
    Finish,
    /// Acknowledge an interrupt that does not report a finished transfer.
    Acknowledge,
}

/// Opening a bus transaction: select the chips, then switch the serial
/// engine on.
pub open spec fn spi_enable() -> Seq<BusOp> {
    seq![BusOp::ChipSelectAssert, BusOp::SerialEnable]
}

/// Closing a bus transaction. The serial engine is left to finish, then
/// chip-select is released so that the chips latch the record, and only
/// then is the engine switched off.
pub open spec fn spi_disable() -> Seq<BusOp> {
    seq![
        BusOp::WaitSerialIdle,
        BusOp::ChipSelectDeassert,
        BusOp::Settle,
        BusOp::SerialDisable,
    ]
}

/// Starting the armed transfer: clear what is left of earlier interrupts,
/// then switch the stream on.
pub open spec fn dma_start() -> Seq<BusOp> {
    seq![BusOp::TransferClearInterrupt, BusOp::TransferStart]
}

/// Arming the stream with the staged record `index`.
pub open spec fn arm(index: usize) -> BusOp {
    BusOp::TransferArm { index, count: RECORD_WORDS }
}

impl Plan {
    /// The operations of the plan, in the order in which they are to be
    /// performed.
    pub open spec fn ops(self) -> Seq<BusOp> {
        match self {
            Plan::Idle => Seq::empty(),
            Plan::Start => seq![BusOp::WaitTransferIdle, arm(0)] + spi_enable() + dma_start(),
            Plan::Next { index } => seq![BusOp::TransferClearComplete, arm(index)] + spi_disable()
                + spi_enable() + dma_start(),
            Plan::Finish => seq![BusOp::TransferClearComplete] + spi_disable(),
            Plan::Acknowledge => seq![BusOp::TransferClearInterrupt],
        }
    }

    /// The number of operations of the plan.
    pub fn len(&self) -> (n: usize)
        ensures
            n == self.ops().len(),
    {
        match self {
            Plan::Idle => 0,
            Plan::Start => 6,
            Plan::Next { .. } => 10,
            Plan::Finish => 5,
            Plan::Acknowledge => 1,
        }
    }

    /// The operation at position `i` of the plan, if it has that many.
    pub fn op(&self, i: usize) -> (op: Option<BusOp>)
        ensures
            op == (if i < self.ops().len() {
                Some(self.ops()[i as int])
            } else {
                None
            }),
    {
        match *self {
            Plan::Idle => None,
            Plan::Start => match i {
                0 => Some(BusOp::WaitTransferIdle),
                1 => Some(BusOp::TransferArm { index: 0, count: RECORD_WORDS }),
                2 => Some(BusOp::ChipSelectAssert),
                3 => Some(BusOp::SerialEnable),
                4 => Some(BusOp::TransferClearInterrupt),
                5 => Some(BusOp::TransferStart),
                _ => None,
            },
            Plan::Next { index } => match i {
                0 => Some(BusOp::TransferClearComplete),
                1 => Some(BusOp::TransferArm { index, count: RECORD_WORDS }),
                2 => Some(BusOp::WaitSerialIdle),
                3 => Some(BusOp::ChipSelectDeassert),
                4 => Some(BusOp::Settle),
                5 => Some(BusOp::SerialDisable),
                6 => Some(BusOp::ChipSelectAssert),
                7 => Some(BusOp::SerialEnable),
                8 => Some(BusOp::TransferClearInterrupt),
                9 => Some(BusOp::TransferStart),
                _ => None,
            },
            Plan::Finish => match i {
                0 => Some(BusOp::TransferClearComplete),
                1 => Some(BusOp::WaitSerialIdle),
                2 => Some(BusOp::ChipSelectDeassert),
                3 => Some(BusOp::Settle),
                4 => Some(BusOp::SerialDisable),
                _ => None,
            },
            Plan::Acknowledge => match i {
                0 => Some(BusOp::TransferClearInterrupt),
                _ => None,
            },
        }
    }
}

} // verus!
