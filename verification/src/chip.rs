//! The chip controller as the platform sees it: the interrupts that have
//! been raised and not yet serviced, and their dispatch into the graph.

use vstd::prelude::*;
use crate::composition::Composition;
use crate::wiring::{Interrupt, Node};

verus! {

/// The chip's unserviced interrupts, oldest first.
pub struct Chip {
    pending: Vec<Interrupt>,
}

impl Chip {
    /// The unserviced interrupts, oldest first.
    pub closed spec fn view(&self) -> Seq<Interrupt> {
        self.pending@
    }

    /// A chip on which nothing is pending.
    pub fn new() -> (chip: Self)
        ensures
            chip@ == Seq::<Interrupt>::empty(),
    {
        Chip { pending: Vec::new() }
    }

    /// Records that the hardware has raised `irq`.
    pub fn raise(&mut self, irq: Interrupt)
        ensures
            final(self)@ == old(self)@.push(irq),
    {
        self.pending.push(irq);
    }

    /// Whether any interrupt waits to be serviced. Asking changes nothing.
    pub fn has_pending_interrupts(&self) -> (pending: bool)
        ensures
            pending == (self@.len() > 0),
    {
        self.pending.len() > 0
    }

    /// Takes every pending interrupt off the chip, oldest first, and
    /// dispatches each along its path through `wiring`. Returns the nodes
    /// that received a callback, in the order of delivery.
    pub fn service_pending_interrupts(&mut self, wiring: &Composition) -> (delivered: Vec<Node>)
        requires
            wiring.wf(),
        ensures
            final(self)@ == Seq::<Interrupt>::empty(),
            delivered@ == wiring@.deliveries(old(self)@),
    {
        let mut pending: Vec<Interrupt> = Vec::new();
        core::mem::swap(&mut self.pending, &mut pending);
        let mut delivered: Vec<Node> = Vec::new();
        let mut next: usize = 0;
        while next < pending.len()
            invariant
                next <= pending.len(),
                wiring.wf(),
                delivered@ == wiring@.deliveries(pending@.take(next as int)),
            decreases pending.len() - next,
        {
            let mut receivers = wiring.route(pending[next]);
            proof {
                let upto = pending@.take(next + 1);
                assert(upto.drop_last() == pending@.take(next as int));
            }
            delivered.append(&mut receivers);
            next += 1;
        }
        assert(pending@.take(next as int) == pending@);
        delivered
    }
}

} // verus!
