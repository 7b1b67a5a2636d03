//! Interrupt-dispatch core of a microkernel.
//!
//! A fixed-capacity registration table maps hardware interrupt lines to
//! handler descriptors owned by user processes, and a dispatcher routes each
//! pending interrupt either into the owning process (through the scheduler
//! collaborator) or, when nobody listens, masks the line to stop an
//! interrupt storm.

pub mod cap;
pub mod controller;
pub mod irq;

pub use cap::{Capability, Pid};
pub use controller::IrqController;
pub use irq::{
    resume_after_callback, DispatchOutcome, IrqError, IrqState, RedirectRequest, Registration,
    ResumeDirective, Slot, IRQ_COUNT,
};
