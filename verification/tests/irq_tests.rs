use irq_core::{
    Capability, DispatchOutcome, IrqError, IrqState, Pid, RedirectRequest, ResumeDirective, Slot,
    IRQ_COUNT,
};

fn pid(v: u8) -> Pid {
    Pid::new(v).expect("non-zero pid")
}

fn cap(v: usize) -> Capability {
    Capability::new(v).expect("non-zero capability")
}

#[test]
fn zero_words_are_rejected() {
    assert!(Pid::new(0).is_none());
    assert!(Capability::new(0).is_none());
    assert_eq!(pid(7).get(), 7);
    assert_eq!(cap(0xdead_0000).get(), 0xdead_0000);
}

#[test]
fn boot_state_is_empty_and_disabled() {
    let s = IrqState::new();
    assert_eq!(s.table.len(), IRQ_COUNT);
    assert!(s.table.iter().all(|slot| matches!(slot, Slot::Empty)));
    assert_eq!(s.controller.enabled.len(), IRQ_COUNT);
    assert!(s.controller.enabled.iter().all(|e| !e));
    assert!(!s.controller.all_masked);
}

#[test]
fn claim_installs_and_enables_the_line() {
    let mut s = IrqState::new();
    let r = s.interrupt_claim(5, pid(3), cap(0x1000), Some(cap(0x2000)));
    assert_eq!(r, Ok(()));
    match s.table[5] {
        Slot::Registered(reg) => {
            assert_eq!(reg.pid.get(), 3);
            assert_eq!(reg.entry.get(), 0x1000);
            assert_eq!(reg.arg.unwrap().get(), 0x2000);
        }
        Slot::Empty => panic!("claimed slot is empty"),
    }
    assert!(s.controller.enabled[5]);
    assert!(!s.controller.all_masked);
}

#[test]
fn claim_exclusivity() {
    // A second claim on an already-claimed line always fails, whichever
    // process tries, and the original registration is untouched.
    let mut s = IrqState::new();
    assert_eq!(s.interrupt_claim(9, pid(3), cap(0x1000), None), Ok(()));
    let again_other = s.interrupt_claim(9, pid(4), cap(0x3000), Some(cap(0x4000)));
    assert_eq!(again_other, Err(IrqError::InterruptAlreadyClaimed));
    let again_self = s.interrupt_claim(9, pid(3), cap(0x1000), None);
    assert_eq!(again_self, Err(IrqError::InterruptAlreadyClaimed));
    match s.table[9] {
        Slot::Registered(reg) => {
            assert_eq!(reg.pid.get(), 3);
            assert_eq!(reg.entry.get(), 0x1000);
            assert!(reg.arg.is_none());
        }
        Slot::Empty => panic!("registration vanished"),
    }
}

#[test]
fn claim_range_enforcement() {
    // line == IRQ_COUNT and line > IRQ_COUNT both fail with the range
    // error, and neither the table nor the controller state moves.
    let mut s = IrqState::new();
    for line in [IRQ_COUNT, IRQ_COUNT + 1, 1000] {
        let r = s.interrupt_claim(line, pid(2), cap(0x5000), None);
        assert_eq!(r, Err(IrqError::InterruptLineOutOfRange));
        assert!(s.table.iter().all(|slot| matches!(slot, Slot::Empty)));
        assert!(s.controller.enabled.iter().all(|e| !e));
        assert!(!s.controller.all_masked);
    }
}

#[test]
fn dispatch_with_nothing_pending_changes_nothing() {
    let mut s = IrqState::new();
    assert_eq!(s.interrupt_claim(4, pid(2), cap(0x800), None), Ok(()));
    let table_before: Vec<Slot> = s.table.clone();
    let enabled_before: Vec<bool> = s.controller.enabled.clone();
    let masked_before = s.controller.all_masked;
    let r = s.handle(0);
    assert_eq!(r, Ok(DispatchOutcome::Resume));
    assert_eq!(s.table, table_before);
    assert_eq!(s.controller.enabled, enabled_before);
    assert_eq!(s.controller.all_masked, masked_before);
}

#[test]
fn storm_suppression_masks_exactly_the_unhandled_line() {
    let mut s = IrqState::new();
    assert_eq!(s.interrupt_claim(4, pid(2), cap(0x800), None), Ok(()));
    let r = s.handle(1 << 3);
    // No redirect is attempted: the pass falls through to the default
    // resume outcome, and only line 3 was masked.
    assert_eq!(r, Ok(DispatchOutcome::Resume));
    assert!(!s.controller.enabled[3]);
    for i in 0..IRQ_COUNT {
        if i != 3 {
            assert_eq!(s.controller.enabled[i], i == 4);
        }
    }
    assert!(!s.controller.all_masked);
}

#[test]
fn redirect_argument_integrity() {
    let mut s = IrqState::new();
    assert_eq!(s.interrupt_claim(5, pid(3), cap(0x1000), Some(cap(0x2000))), Ok(()));
    let r = s.handle(1 << 5);
    match r {
        Ok(DispatchOutcome::Redirect(req)) => {
            assert_eq!(req.line, 5);
            assert_eq!(req.pid.get(), 3);
            assert_eq!(req.entry.get(), 0x1000);
            assert_eq!(req.arg_word, 0x2000);
        }
        other => panic!("expected a redirect, got {:?}", other),
    }
    // All sources are masked for the redirect.
    assert!(s.controller.all_masked);
    // The table itself is never written by dispatch.
    assert!(matches!(s.table[5], Slot::Registered(_)));
}

#[test]
fn multi_bit_scan_continuation() {
    // One unregistered line below one registered line, both pending: the
    // unregistered one is masked and the registered one still gets its
    // redirect in the same call.
    let mut s = IrqState::new();
    assert_eq!(s.interrupt_claim(7, pid(6), cap(0x9000), None), Ok(()));
    let r = s.handle((1 << 2) | (1 << 7));
    match r {
        Ok(DispatchOutcome::Redirect(req)) => {
            assert_eq!(req.line, 7);
            assert_eq!(req.pid.get(), 6);
            assert_eq!(req.entry.get(), 0x9000);
        }
        other => panic!("expected a redirect, got {:?}", other),
    }
    assert!(!s.controller.enabled[2]);
    assert!(s.controller.all_masked);
}

#[test]
fn no_argument_claim_yields_zero_sentinel() {
    let mut s = IrqState::new();
    assert_eq!(s.interrupt_claim(11, pid(9), cap(0x4242), None), Ok(()));
    let r = s.handle(1 << 11);
    match r {
        Ok(DispatchOutcome::Redirect(req)) => {
            assert_eq!(
                req,
                RedirectRequest {
                    line: 11,
                    pid: pid(9),
                    entry: cap(0x4242),
                    arg_word: 0,
                }
            );
        }
        other => panic!("expected a redirect, got {:?}", other),
    }
}

#[test]
fn lowest_pending_registered_line_wins() {
    // Ascending scan order: the lowest line that is pending and registered
    // is the one redirected, and higher pending bits are left alone.
    let mut s = IrqState::new();
    assert_eq!(s.interrupt_claim(6, pid(2), cap(0x600), None), Ok(()));
    assert_eq!(s.interrupt_claim(20, pid(3), cap(0x700), None), Ok(()));
    let r = s.handle((1 << 6) | (1 << 20));
    match r {
        Ok(DispatchOutcome::Redirect(req)) => {
            assert_eq!(req.line, 6);
            assert_eq!(req.entry.get(), 0x600);
        }
        other => panic!("expected a redirect, got {:?}", other),
    }
    // Line 20 keeps its enable bit: its interrupt will re-assert.
    assert!(s.controller.enabled[20]);
}

#[test]
fn pending_bits_beyond_the_topology_are_ignored() {
    let mut s = IrqState::new();
    let r = s.handle(usize::MAX << IRQ_COUNT);
    assert_eq!(r, Ok(DispatchOutcome::Resume));
    assert!(s.controller.enabled.iter().all(|e| !e));
    assert!(!s.controller.all_masked);
}
