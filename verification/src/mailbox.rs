//! The storage mailbox: the bounded command queue to the one task that owns
//! persistent storage.
//!
//! Producers never touch storage; they enqueue `FlashOperationMessage`
//! values here. The queue is strict FIFO: accepted commands are consumed in
//! the order they were accepted, and a command refused by the best-effort
//! discipline is simply absent, never reordered.

use vstd::prelude::*;

use crate::types::Action;

verus! {

/// A persistence command, consumed exclusively by the storage task.
#[derive(Clone, Copy, PartialEq, Eq, Structural, Debug)]
pub enum FlashOperationMessage {
    /// Persist one keymap cell.
    KeymapKey {
        /// Layer of the cell.
        layer: u8,
        /// Column of the cell.
        col: u8,
        /// Row of the cell.
        row: u8,
        /// The action now stored there.
        action: Action,
    },
    /// Wipe persistent storage back to defaults.
    Reset,
}

/// The bounded FIFO of pending persistence commands.
pub struct StorageMailbox {
    queue: Vec<FlashOperationMessage>,
    capacity: usize,
}

impl StorageMailbox {
    /// The pending commands, oldest first.
    pub closed spec fn spec_queue(self) -> Seq<FlashOperationMessage> {
        self.queue@
    }

    /// How many commands the mailbox can hold at once.
    pub closed spec fn spec_capacity(self) -> int {
        self.capacity as int
    }

    /// The queue never exceeds its capacity.
    pub open spec fn wf(self) -> bool {
        self.spec_queue().len() <= self.spec_capacity()
    }

    /// No further command can be accepted right now.
    pub open spec fn spec_full(self) -> bool {
        self.spec_queue().len() == self.spec_capacity()
    }

    /// Creates an empty mailbox of the given capacity.
    pub fn new(capacity: usize) -> (m: StorageMailbox)
        ensures
            m.wf(),
            m.spec_capacity() == capacity,
            m.spec_queue() == Seq::<FlashOperationMessage>::empty(),
    {
        StorageMailbox { queue: Vec::new(), capacity }
    }

    /// How many commands are pending.
    pub fn len(&self) -> (n: usize)
        ensures
            n == self.spec_queue().len(),
    {
        self.queue.len()
    }

    /// Whether the mailbox is at capacity.
    pub fn is_full(&self) -> (b: bool)
        ensures
            b == self.spec_full(),
    {
        self.queue.len() == self.capacity
    }

    /// Best-effort enqueue: accepts the command exactly when there is space,
    /// and silently drops it otherwise. Used for frequent, incremental
    /// writes, which must never stall the request path.
    pub fn try_send(&mut self, msg: FlashOperationMessage) -> (accepted: bool)
        requires
            old(self).wf(),
        ensures
            final(self).wf(),
            final(self).spec_capacity() == old(self).spec_capacity(),
            accepted == !old(self).spec_full(),
            accepted ==> final(self).spec_queue() == old(self).spec_queue().push(msg),
            !accepted ==> *final(self) == *old(self),
    {
        if self.queue.len() < self.capacity {
            self.queue.push(msg);
            true
        } else {
            false
        }
    }

    /// Consumer side: takes the oldest pending command, if any. Only the
    /// storage task calls this; commands come out in acceptance order.
    pub fn receive(&mut self) -> (msg: Option<FlashOperationMessage>)
        requires
            old(self).wf(),
        ensures
            final(self).wf(),
            final(self).spec_capacity() == old(self).spec_capacity(),
            old(self).spec_queue().len() == 0 ==> msg is None && *final(self) == *old(self),
            old(self).spec_queue().len() > 0 ==> msg == Some(old(self).spec_queue()[0])
                && final(self).spec_queue() == old(self).spec_queue().drop_first(),
    {
        if self.queue.len() == 0 {
            None
        } else {
            let msg = self.queue.remove(0);
            assert(self.queue@ =~= old(self).queue@.drop_first());
            Some(msg)
        }
    }
}

} // verus!
