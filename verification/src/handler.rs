//! The typed handler table.
//!
//! The IDT stores raw entry-point addresses; application logic reasons
//! about typed handlers. The bridge is this table, indexed exactly like
//! the trampoline table: the shared dispatcher reads the vector number
//! off the normalized frame and calls the handler recorded here.

use vstd::prelude::*;

use crate::idt::ENTRY_SIZE;

verus! {

/// A typed interrupt handler, called with the error code and the vector
/// number of the normalized frame.
#[derive(Clone, Copy, PartialEq, Eq, Structural, Debug)]
pub enum Handler {
    /// No handler claimed the vector yet.
    Missing,
    /// The fallback supplied by the interrupt-controller driver for
    /// external IRQ vectors: acknowledges the source and returns.
    DefaultExternal,
    /// A handler registered by application logic, named by its identifier.
    Bound(u32),
}

/// Mapping from vector number to typed handler, one slot per trampoline
/// vector.
pub struct HandlerTable {
    pub handlers: Vec<Handler>,
}

impl HandlerTable {
    pub open spec fn wf(self) -> bool {
        self.handlers@.len() == ENTRY_SIZE
    }

    /// A fresh table with every vector unclaimed.
    pub fn new() -> (t: HandlerTable)
        ensures
            t.wf(),
            forall|v: int| 0 <= v < ENTRY_SIZE ==> t.handlers@[v] == Handler::Missing,
    {
        let mut handlers: Vec<Handler> = Vec::new();
        let mut i: usize = 0;
        while i < ENTRY_SIZE
            invariant
                i <= ENTRY_SIZE,
                handlers@.len() == i,
                forall|j: int| 0 <= j < i ==> handlers@[j] == Handler::Missing,
            decreases ENTRY_SIZE - i,
        {
            handlers.push(Handler::Missing);
            i = i + 1;
        }
        HandlerTable { handlers }
    }

    /// Rebind one vector. Allowed only during initialization, never
    /// concurrently with dispatch.
    pub fn set_interrupt_handler(&mut self, vector: usize, handler: Handler)
        requires
            old(self).wf(),
            vector < ENTRY_SIZE,
        ensures
            final(self).wf(),
            final(self).handlers@ == old(self).handlers@.update(vector as int, handler),
    {
        self.handlers[vector] = handler;
    }

    /// The handler currently bound to a vector.
    pub fn handler_for(&self, vector: usize) -> (h: Handler)
        requires
            self.wf(),
            vector < ENTRY_SIZE,
        ensures
            h == self.handlers@[vector as int],
    {
        self.handlers[vector]
    }
}

} // verus!
