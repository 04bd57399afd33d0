//! The long-lived service context behind the dispatcher.
//!
//! The context is the root device object: it owns the keymap and the storage
//! mailbox and is constructed once at boot, then lent to every handler
//! invocation. The cooperative scheduling model guarantees handler execution
//! never overlaps another mutator of the keymap, so plain `&mut` access
//! through this one owner is the whole locking story.

use vstd::prelude::*;

use crate::keymap::KeyMap;
use crate::mailbox::StorageMailbox;

verus! {

/// Application context for the request/response service: the shared keymap
/// and the mailbox to the persistence task.
pub struct RmkContext {
    /// The keymap all handlers read and mutate.
    pub keymap: KeyMap,
    /// The bounded queue to the storage consumer.
    pub mailbox: StorageMailbox,
}

/// Task context handed to handlers that are spawned as independently
/// scheduled tasks rather than run inline.
pub struct RmkTaskContext {}

impl RmkContext {
    /// Both owned components are well-formed.
    pub open spec fn wf(self) -> bool {
        self.keymap.wf() && self.mailbox.wf()
    }

    /// Creates the root context at boot: a blank keymap of the configured
    /// dimensions and an empty storage mailbox of the given capacity.
    pub fn new(rows: u8, cols: u8, layers: u8, mailbox_capacity: usize) -> (ctx: RmkContext)
        ensures
            ctx.wf(),
            ctx.keymap.spec_rows() == rows,
            ctx.keymap.spec_cols() == cols,
            ctx.keymap.spec_layers() == layers,
            ctx.mailbox.spec_capacity() == mailbox_capacity,
            ctx.mailbox.spec_queue().len() == 0,
    {
        RmkContext {
            keymap: KeyMap::new(rows, cols, layers),
            mailbox: StorageMailbox::new(mailbox_capacity),
        }
    }

    /// Produces the context for one spawned handler task; the shared state
    /// stays with the root context.
    pub fn spawn_ctxt(&mut self) -> (t: RmkTaskContext)
        ensures
            *final(self) == *old(self),
    {
        RmkTaskContext {  }
    }
}

} // verus!
