//! The streaming engine: what the main program and the interrupt handler
//! share, and what each of them does with it.
//!
//! A frame goes out one record at a time. The main program stages the
//! records and starts the first transfer. Each time the hardware reports
//! that a transfer is complete, the interrupt handler latches what was sent
//! and starts the next record, until none is left. From the moment a frame
//! is accepted until its last record is latched, the stream is busy and
//! takes no other frame.

use vstd::prelude::*;
use crate::bus::{DmaStatus, Plan};
use crate::dma_buff::{advanced, DmaBuff, DmaBuffIter, CAPACITY};
use crate::error::Error;

verus! {

/// What the stream holds, as contracts see it.
pub struct StreamState {
    /// A frame is being streamed.
    pub busy: bool,
    /// The staged records, in the order in which they were staged.
    pub queue: Seq<Seq<u16>>,
    /// The position of the record that the interrupt handler started last;
    /// `None` while it has started none of the frame in flight.
    pub cursor: Option<usize>,
}

/// Where the stream stands with its frame.
#[derive(Clone, Copy, Debug, PartialEq, Eq, Structural)]
pub enum Phase {
    /// No frame is in flight.
    Idle,
    /// A frame was accepted and its first record is on its way.
    Starting,
    /// The interrupt handler is sending the records behind the first.
    Streaming,
}

/// The phase that `state` stands for.
pub open spec fn phase_of(state: StreamState) -> Phase {
    if !state.busy {
        Phase::Idle
    } else if state.cursor is None {
        Phase::Starting
    } else {
        Phase::Streaming
    }
}

/// The state that the main program and the interrupt handler share: the
/// busy flag, the transfer queue and the handler's cursor into it.
pub struct DmaStream {
    busy: bool,
    buff: DmaBuff,
    iter: Option<DmaBuffIter>,
}

impl View for DmaStream {
    type V = StreamState;

    closed spec fn view(&self) -> StreamState {
        StreamState {
            busy: self.busy,
            queue: self.buff@,
            cursor: match self.iter {
                Some(iter) => iter.position(),
                None => None,
            },
        }
    }
}

/// The position of the record that the interrupt handler turns to next.
/// The first record of a frame is started by the main program, so a handler
/// that has started none yet turns to the second.
pub open spec fn next_position(cursor: Option<usize>) -> usize {
    match cursor {
        None => 1,
        Some(_) => advanced(cursor),
    }
}

/// The stream after the interrupt handler ran on `state`, with `device`
/// read from the hardware.
///
/// An interrupt that does not report a complete transfer changes nothing.
/// Otherwise the cursor moves on to the next staged record; if there is
/// none, the frame is done: the cursor is dropped and the stream is no
/// longer busy.
pub open spec fn after_interrupt(state: StreamState, device: DmaStatus) -> StreamState {
    if !device.transfer_complete {
        state
    } else if next_position(state.cursor) < state.queue.len() {
        StreamState { cursor: Some(next_position(state.cursor)), ..state }
    } else {
        StreamState { busy: false, cursor: None, ..state }
    }
}

/// What the interrupt handler asks of the bus when it runs on `state`, with
/// `device` read from the hardware.
pub open spec fn interrupt_plan(state: StreamState, device: DmaStatus) -> Plan {
    if !device.transfer_complete {
        Plan::Acknowledge
    } else if next_position(state.cursor) < state.queue.len() {
        Plan::Next { index: next_position(state.cursor) }
    } else {
        Plan::Finish
    }
}

/// What the hardware reports when a transfer has come to its end.
pub open spec fn completion() -> DmaStatus {
    DmaStatus { stream_enabled: false, transfer_complete: true }
}

/// The stream after the interrupt handler ran `passes` times on `state`,
/// each time on a complete transfer.
pub open spec fn after_completions(state: StreamState, passes: nat) -> StreamState
    decreases passes,
{
    if passes == 0 {
        state
    } else {
        after_interrupt(after_completions(state, (passes - 1) as nat), completion())
    }
}

/// While records of the frame are left, each pass of the handler moves the
/// cursor one record on and changes nothing else.
proof fn lemma_streaming(state: StreamState, passes: nat)
    requires
        state.cursor is None,
        state.queue.len() <= CAPACITY,
        passes < state.queue.len(),
    ensures
        after_completions(state, passes) == (StreamState {
            cursor: if passes == 0 {
                None
            } else {
                Some(passes as usize)
            },
            ..state
        }),
    decreases passes,
{
    if passes > 0 {
        lemma_streaming(state, (passes - 1) as nat);
    }
}

/// A frame of `n` staged records takes exactly `n` passes of the interrupt
/// handler, one per complete transfer.
///
/// The frame starts with its first record in flight and the handler's
/// cursor not yet set. Each of the first `n - 1` passes starts the next
/// record, in the order in which the records were staged, and leaves the
/// busy flag as it is. The pass after the last record finishes the frame
/// and clears the busy flag. The queue itself is never changed.
pub proof fn lemma_drain(state: StreamState)
    requires
        state.cursor is None,
        1 <= state.queue.len() <= CAPACITY,
    ensures
        forall|k: nat|
            k < state.queue.len() ==> (#[trigger] after_completions(state, k)).busy == state.busy,
        forall|k: nat|
            1 <= k < state.queue.len() ==> interrupt_plan(
                #[trigger] after_completions(state, (k - 1) as nat),
                completion(),
            ) == (Plan::Next { index: k as usize }),
        interrupt_plan(
            after_completions(state, (state.queue.len() - 1) as nat),
            completion(),
        ) == Plan::Finish,
        after_completions(state, state.queue.len()) == (StreamState {
            busy: false,
            cursor: None,
            ..state
        }),
        forall|k: nat| (#[trigger] after_completions(state, k)).queue == state.queue,
        state.busy ==> phase_of(after_completions(state, 0)) == Phase::Starting,
        state.busy ==> forall|k: nat|
            1 <= k < state.queue.len() ==> phase_of(#[trigger] after_completions(state, k))
                == Phase::Streaming,
        phase_of(after_completions(state, state.queue.len())) == Phase::Idle,
{
    let n = state.queue.len();
    assert forall|k: nat| k < n implies (#[trigger] after_completions(state, k)).busy
        == state.busy by {
        lemma_streaming(state, k);
    }
    assert forall|k: nat| 1 <= k < n implies interrupt_plan(
        #[trigger] after_completions(state, (k - 1) as nat),
        completion(),
    ) == (Plan::Next { index: k as usize }) by {
        lemma_streaming(state, (k - 1) as nat);
    }
    lemma_streaming(state, (n - 1) as nat);
    assert forall|k: nat| (#[trigger] after_completions(state, k)).queue == state.queue by {
        lemma_queue_kept(state, k);
    }
    assert forall|k: nat| 1 <= k < n implies (#[trigger] after_completions(state, k)).cursor
        == Some(k as usize) by {
        lemma_streaming(state, k);
    }
}

/// The interrupt handler never changes the queue.
proof fn lemma_queue_kept(state: StreamState, passes: nat)
    ensures
        after_completions(state, passes).queue == state.queue,
    decreases passes,
{
    if passes > 0 {
        lemma_queue_kept(state, (passes - 1) as nat);
    }
}

impl DmaStream {
    /// A stream that is not busy, with an empty queue.
    pub fn new() -> (stream: DmaStream)
        ensures
            stream@ == (StreamState { busy: false, queue: Seq::empty(), cursor: None }),
    {
        DmaStream { busy: false, buff: DmaBuff::new(), iter: None }
    }

    /// Where the stream stands with its frame.
    pub fn phase(&self) -> (phase: Phase)
        ensures
            phase == phase_of(self@),
    {
        if !self.busy {
            Phase::Idle
        } else {
            match self.iter {
                None => Phase::Starting,
                Some(iter) => if iter.index().is_none() {
                    Phase::Starting
                } else {
                    Phase::Streaming
                },
            }
        }
    }

    /// Tells whether a frame is being streamed.
    pub fn is_busy(&self) -> (busy: bool)
        ensures
            busy == self@.busy,
    {
        self.busy
    }

    /// The number of staged records.
    pub fn len(&self) -> (n: usize)
        ensures
            n == self@.queue.len(),
    {
        self.buff.len()
    }

    /// The staged record at position `index`, if there is one.
    pub fn get_buff(&self, index: usize) -> (item: Option<&[u16; 4]>)
        ensures
            match item {
                Some(data) => index < self@.queue.len() && data@ == self@.queue[index as int],
                None => index >= self@.queue.len(),
            },
    {
        self.buff.get_buff(index)
    }

    /// Takes the stream for a new frame: marks it busy, unless it is busy
    /// already. Then nothing changes and the call fails with `Error::Busy`.
    ///
    /// This is the one step that must not be interrupted.
    pub fn acquire(&mut self) -> (res: Result<(), Error>)
        ensures
            old(self)@.busy ==> res == Err::<(), Error>(Error::Busy) && final(self)@ == old(self)@,
            !old(self)@.busy ==> res == Ok::<(), Error>(()) && final(self)@ == (StreamState {
                busy: true,
                ..old(self)@
            }),
    {
        if self.busy {
            Err(Error::Busy)
        } else {
            self.busy = true;
            Ok(())
        }
    }

    /// Gives the stream back: it is no longer busy.
    pub fn release(&mut self)
        ensures
            final(self)@ == (StreamState { busy: false, ..old(self)@ }),
    {
        self.busy = false;
    }

    /// Empties the queue, unless the transfer stream is switched on: then
    /// nothing changes and the call fails with `Error::Busy`.
    pub fn clear_buff(&mut self, device: &DmaStatus) -> (res: Result<(), Error>)
        ensures
            device.stream_enabled ==> res == Err::<(), Error>(Error::Busy) && final(self)@ == old(
                self,
            )@,
            !device.stream_enabled ==> res == Ok::<(), Error>(()) && final(self)@ == (StreamState {
                queue: Seq::empty(),
                ..old(self)@
            }),
    {
        self.buff.clear_buff(device)
    }

    /// Stages one record behind those already staged.
    ///
    /// Fails with `Error::Busy` while the transfer stream is switched on,
    /// and otherwise with `Error::Overflow` when the queue is full. A call
    /// that fails changes nothing.
    pub fn add_buff(&mut self, data: &[u16; 4], device: &DmaStatus) -> (res: Result<(), Error>)
        ensures
            device.stream_enabled ==> res == Err::<(), Error>(Error::Busy) && final(self)@ == old(
                self,
            )@,
            !device.stream_enabled && old(self)@.queue.len() >= CAPACITY ==> res == Err::<(), Error>(
                Error::Overflow,
            ) && final(self)@ == old(self)@,
            !device.stream_enabled && old(self)@.queue.len() < CAPACITY ==> res == Ok::<(), Error>(())
                && final(self)@ == (StreamState {
                queue: old(self)@.queue.push(data@),
                ..old(self)@
            }),
    {
        self.buff.add_buff(data, device)
    }

    /// Decides how to start streaming the staged records: with the first of
    /// them, or not at all if none is staged. The stream itself does not
    /// change; the records behind the first go out from the interrupt
    /// handler.
    pub fn send_request_to_dma(&self) -> (plan: Plan)
        ensures
            plan == (if self@.queue.len() > 0 {
                Plan::Start
            } else {
                Plan::Idle
            }),
    {
        let mut i = self.buff.iter();
        match i.next(&self.buff) {
            Some(_) => Plan::Start,
            None => Plan::Idle,
        }
    }

    /// The interrupt handler of the transfer stream.
    ///
    /// `device` is what the handler read from the hardware on entry. If it
    /// reports a complete transfer, the handler moves on to the next staged
    /// record, or, behind the last one, ends the frame and clears the busy
    /// flag. Any other cause is acknowledged and changes nothing.
    pub fn dma2_stream3(&mut self, device: &DmaStatus) -> (plan: Plan)
        ensures
            final(self)@ == after_interrupt(old(self)@, *device),
            plan == interrupt_plan(old(self)@, *device),
    {
        if !device.transfer_complete {
            return Plan::Acknowledge;
        }
        let mut iter = match self.iter {
            Some(iter) => iter,
            None => self.buff.iter(),
        };
        if iter.index().is_none() {
            // The main program has started the first record already.
            let _ = iter.next(&self.buff);
        }
        let more = iter.next(&self.buff).is_some();
        if more {
            let index: usize = match iter.index() {
                Some(index) => index,
                None => 0,
            };
            self.iter = Some(iter);
            Plan::Next { index }
        } else {
            self.iter = None;
            self.busy = false;
            Plan::Finish
        }
    }
}

} // verus!
