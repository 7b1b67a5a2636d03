//! Model of the architecture-specific interrupt controller.
//!
//! The real controller is a piece of hardware driven by an
//! architecture-specific driver; this module keeps the kernel's view of its
//! enable state: one enable bit per interrupt line, plus the global
//! "all sources masked" switch that the claim path and the dispatch path use
//! as their critical-section discipline on a single core. All four
//! operations are idempotent and safe to nest, as the hardware interface
//! demands.

use vstd::prelude::*;

verus! {

use crate::irq::{IrqError, IRQ_COUNT};

/// Enable state of the interrupt controller: a per-line enable bit for each
/// of the `IRQ_COUNT` lines, and the global mask that suppresses delivery
/// from every source at once without forgetting the per-line bits.
pub struct IrqController {
    pub enabled: Vec<bool>,
    pub all_masked: bool,
}

impl IrqController {
    /// The controller always knows exactly `IRQ_COUNT` lines.
    pub open spec fn wf(self) -> bool {
        self.enabled@.len() == IRQ_COUNT
    }

    /// A controller as the kernel finds it at boot: every line disabled
    /// (a line is enabled only once a handler claims it) and delivery
    /// unmasked.
    pub fn new() -> (r: IrqController)
        ensures
            r.wf(),
            r.all_masked == false,
            forall|i: int| 0 <= i < IRQ_COUNT ==> r.enabled@[i] == false,
    {
        let mut enabled: Vec<bool> = Vec::new();
        let mut i: usize = 0;
        while i < IRQ_COUNT
            invariant
                i <= IRQ_COUNT,
                enabled@.len() == i,
                forall|j: int| 0 <= j < i ==> enabled@[j] == false,
            decreases IRQ_COUNT - i,
        {
            enabled.push(false);
            i += 1;
        }
        IrqController { enabled, all_masked: false }
    }

    /// Masks every interrupt source at once. The per-line enable bits are
    /// kept, so a later global unmask restores exactly the lines that were
    /// enabled before. Idempotent.
    pub fn disable_all_irqs(&mut self)
        requires
            old(self).wf(),
        ensures
            final(self).wf(),
            final(self).all_masked == true,
            final(self).enabled@ == old(self).enabled@,
    {
        self.all_masked = true;
    }

    /// Lifts the global mask, re-allowing delivery from every line whose
    /// per-line enable bit is set. Idempotent.
    pub fn enable_all_irqs(&mut self)
        requires
            old(self).wf(),
        ensures
            final(self).wf(),
            final(self).all_masked == false,
            final(self).enabled@ == old(self).enabled@,
    {
        self.all_masked = false;
    }

    /// Unmasks one line. The driver interface reports no error here, so the
    /// caller must name a line the controller knows.
    pub fn enable_irq(&mut self, line: usize)
        requires
            old(self).wf(),
            line < IRQ_COUNT,
        ensures
            final(self).wf(),
            final(self).all_masked == old(self).all_masked,
            final(self).enabled@ == old(self).enabled@.update(line as int, true),
    {
        self.enabled.set(line, true);
    }

    /// Masks one line (the storm-suppression action). The controller
    /// rejects a line it does not know.
    pub fn disable_irq(&mut self, line: usize) -> (r: Result<(), IrqError>)
        requires
            old(self).wf(),
        ensures
            final(self).wf(),
            line < IRQ_COUNT ==> (r is Ok
                && final(self).all_masked == old(self).all_masked
                && final(self).enabled@ == old(self).enabled@.update(line as int, false)),
            line >= IRQ_COUNT ==> (r == Err::<(), IrqError>(IrqError::InterruptNotFound)
                && final(self).all_masked == old(self).all_masked
                && final(self).enabled@ == old(self).enabled@),
    {
        if line < IRQ_COUNT {
            self.enabled.set(line, false);
            Ok(())
        } else {
            Err(IrqError::InterruptNotFound)
        }
    }
}

} // verus!
