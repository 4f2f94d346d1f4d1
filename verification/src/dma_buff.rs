//! The transfer queue: the records that are staged for the bus.
//!
//! The queue is written from the main program while the transfer hardware
//! is idle, and read while a transfer is in flight. Every operation that
//! writes it is turned down while the hardware is active, so that the
//! hardware never reads a record that is being changed.

use vstd::prelude::*;
use crate::bus::DmaStatus;
use crate::error::Error;

verus! {

/// Number of records that the queue has room for: one per display row.
pub const CAPACITY: usize = 8;

/// A queue of up to `CAPACITY` transfer records of four half-words each.
pub struct DmaBuff {
    buff: [[u16; 4]; 8],
    data_count: usize,
}

impl View for DmaBuff {
    type V = Seq<Seq<u16>>;

    /// The staged records, in the order in which they were staged.
    closed spec fn view(&self) -> Seq<Seq<u16>> {
        let count = if self.data_count <= CAPACITY {
            self.data_count
        } else {
            CAPACITY
        };
        Seq::new(count as nat, |i: int| self.buff@[i]@)
    }
}

impl DmaBuff {
    #[verifier::type_invariant]
    spec fn inv(self) -> bool {
        self.data_count <= CAPACITY
    }

    /// The queue never holds more than `CAPACITY` records, and each has
    /// four half-words.
    pub proof fn lemma_bounds(&self)
        ensures
            self@.len() <= CAPACITY,
            forall|i: int| 0 <= i < self@.len() ==> (#[trigger] self@[i]).len() == 4,
    {
    }

    /// An empty queue.
    pub fn new() -> (queue: DmaBuff)
        ensures
            queue@ == Seq::<Seq<u16>>::empty(),
    {
        let queue = DmaBuff { buff: [[0u16; 4]; 8], data_count: 0 };
        assert(queue@ =~= Seq::<Seq<u16>>::empty());
        queue
    }

    /// Tells whether the queue may be written: `Err(Error::Busy)` exactly
    /// when the transfer stream is switched on.
    pub fn is_dma_inactive(device: &DmaStatus) -> (res: Result<(), Error>)
        ensures
            res == (if device.stream_enabled {
                Err::<(), Error>(Error::Busy)
            } else {
                Ok::<(), Error>(())
            }),
    {
        if device.stream_enabled {
            Err(Error::Busy)
        } else {
            Ok(())
        }
    }

    /// Empties the queue, unless the transfer stream is switched on: then
    /// the queue stays as it is and the call fails with `Error::Busy`.
    pub fn clear_buff(&mut self, device: &DmaStatus) -> (res: Result<(), Error>)
        ensures
            device.stream_enabled ==> res == Err::<(), Error>(Error::Busy) && final(self)@ == old(
                self,
            )@,
            !device.stream_enabled ==> res == Ok::<(), Error>(()) && final(self)@ == Seq::<
                Seq<u16>,
            >::empty(),
    {
        match Self::is_dma_inactive(device) {
            Err(e) => {
                return Err(e);
            },
            Ok(()) => {},
        }
        self.data_count = 0;
        assert(self@ =~= Seq::<Seq<u16>>::empty());
        Ok(())
    }

    /// Stages one record behind those already staged.
    ///
    /// Fails with `Error::Busy` while the transfer stream is switched on,
    /// and otherwise with `Error::Overflow` when the queue is full. A call
    /// that fails leaves the queue as it is.
    pub fn add_buff(&mut self, data: &[u16; 4], device: &DmaStatus) -> (res: Result<(), Error>)
        ensures
            device.stream_enabled ==> res == Err::<(), Error>(Error::Busy) && final(self)@ == old(
                self,
            )@,
            !device.stream_enabled && old(self)@.len() >= CAPACITY ==> res == Err::<(), Error>(
                Error::Overflow,
            ) && final(self)@ == old(self)@,
            !device.stream_enabled && old(self)@.len() < CAPACITY ==> res == Ok::<(), Error>(())
                && final(self)@ == old(self)@.push(data@),
    {
        proof {
            use_type_invariant(&*self);
        }
        match Self::is_dma_inactive(device) {
            Err(e) => {
                return Err(e);
            },
            Ok(()) => {},
        }
        if self.data_count >= 8 {
            return Err(Error::Overflow);
        }
        self.buff[self.data_count] = *data;
        self.data_count += 1;
        assert(self@ =~= old(self)@.push(data@));
        Ok(())
    }

    /// The number of staged records.
    pub fn len(&self) -> (n: usize)
        ensures
            n == self@.len(),
    {
        proof {
            use_type_invariant(self);
        }
        self.data_count
    }

    /// The staged record at position `index`, if there is one.
    pub fn get_buff(&self, index: usize) -> (item: Option<&[u16; 4]>)
        ensures
            match item {
                Some(data) => index < self@.len() && data@ == self@[index as int],
                None => index >= self@.len(),
            },
    {
        proof {
            use_type_invariant(self);
        }
        if index < self.data_count {
            Some(&self.buff[index])
        } else {
            None
        }
    }

    /// A cursor that stands before the first staged record.
    pub fn iter(&self) -> (cursor: DmaBuffIter)
        ensures
            cursor.position() == None::<usize>,
    {
        DmaBuffIter { cur_index: None }
    }
}

/// A cursor over the staged records of a queue.
///
/// The cursor holds a position and nothing of the queue: each step is
/// handed the queue that it walks. It cannot be set back.
#[derive(Clone, Copy)]
pub struct DmaBuffIter {
    cur_index: Option<usize>,
}

/// The position that a cursor moves to with its next step. A cursor that
/// has left the queue's room stays where it is.
pub open spec fn advanced(position: Option<usize>) -> usize {
    match position {
        None => 0,
        Some(i) => if i < CAPACITY {
            (i + 1) as usize
        } else {
            i
        },
    }
}

/// The position of a cursor that has made `steps` steps since it was
/// created.
pub open spec fn position_after(steps: nat) -> Option<usize>
    decreases steps,
{
    if steps == 0 {
        None
    } else {
        Some(advanced(position_after((steps - 1) as nat)))
    }
}

/// A cursor visits the places of the queue in the order in which they were
/// filled, each once: its first step stands at position 0, and every
/// further step one position on. Behind the last place of the queue it goes
/// no further, and it never comes back.
pub proof fn lemma_cursor_order(steps: nat)
    requires
        steps >= 1,
    ensures
        position_after(steps) == Some(
            if steps <= CAPACITY {
                (steps - 1) as usize
            } else {
                CAPACITY
            },
        ),
    decreases steps,
{
    if steps > 1 {
        lemma_cursor_order((steps - 1) as nat);
    } else {
        assert(position_after(0) == None::<usize>);
    }
}

impl DmaBuffIter {
    #[verifier::type_invariant]
    spec fn inv(self) -> bool {
        match self.cur_index {
            None => true,
            Some(i) => i <= CAPACITY,
        }
    }

    /// The position of the record that the last step looked at; `None`
    /// before the first step.
    pub closed spec fn position(&self) -> Option<usize> {
        self.cur_index
    }

    /// The position of the record that the last step looked at; `None`
    /// before the first step.
    pub fn index(&self) -> (position: Option<usize>)
        ensures
            position == self.position(),
    {
        self.cur_index
    }

    /// Moves the cursor one record on and returns the record that it then
    /// stands at, or `None` behind the last staged record.
    pub fn next<'a>(&mut self, queue: &'a DmaBuff) -> (item: Option<&'a [u16; 4]>)
        ensures
            final(self).position() == Some(advanced(old(self).position())),
            match item {
                Some(data) => advanced(old(self).position()) < queue@.len() && data@ == queue@[advanced(
                    old(self).position(),
                ) as int],
                None => advanced(old(self).position()) >= queue@.len(),
            },
    {
        proof {
            use_type_invariant(&*self);
        }
        let position: usize = match self.cur_index {
            Some(i) => if i < 8 {
                i + 1
            } else {
                i
            },
            None => 0,
        };
        self.cur_index = Some(position);
        queue.get_buff(position)
    }
}

} // verus!
