//! The interrupt registration table and the dispatcher.
//!
//! The table is the single source of truth mapping each of the `IRQ_COUNT`
//! hardware interrupt lines to the handler a process claimed for it; the
//! dispatcher consults it once per trap with the hardware's pending-line
//! snapshot. Both run on a single core with delivery masked, which is the
//! only mutual exclusion the table gets: a claim masks every source, checks
//! and installs the whole registration in one piece, and restores the mask,
//! so dispatch can never observe a partially written slot.

use vstd::prelude::*;

verus! {

use crate::cap::{Capability, Pid};
use crate::controller::IrqController;

/// Number of distinct interrupt lines the hardware topology provides.
/// Line numbers live in `[0, IRQ_COUNT)` and are fixed once assigned.
pub const IRQ_COUNT: usize = 32;

/// Everything that can go wrong while claiming a line or dispatching an
/// interrupt.
#[derive(Clone, Copy, Debug, PartialEq, Eq)]
pub enum IrqError {
    /// A claim named a line number outside `[0, IRQ_COUNT)`.
    InterruptLineOutOfRange,
    /// A claim named a line that already has a live registration.
    InterruptAlreadyClaimed,
    /// The controller was asked to mask or unmask a line it does not know.
    InterruptNotFound,
    /// The scheduler could not switch into the owning process (it may have
    /// exited since it claimed the line).
    ProcessNotFound,
}

/// One handler registration: the owning process, the entry-point capability
/// the handler starts at, and an optional argument capability delivered to
/// it verbatim.
#[derive(Clone, Copy, Debug, PartialEq, Eq)]
pub struct Registration {
    pub pid: Pid,
    pub entry: Capability,
    pub arg: Option<Capability>,
}

/// State of one interrupt line in the table. An explicit two-state variant
/// keeps "nobody listens" and "registered" impossible to confuse.
#[derive(Clone, Copy, Debug, PartialEq, Eq)]
pub enum Slot {
    Empty,
    Registered(Registration),
}

/// The dispatcher's request to the scheduler collaborator: switch into
/// process `pid`, start executing at `entry`, and hand the handler the
/// triggering line number and `arg_word` as its two plain-word arguments.
#[derive(Clone, Copy, Debug, PartialEq, Eq)]
pub struct RedirectRequest {
    pub line: usize,
    pub pid: Pid,
    pub entry: Capability,
    /// The registered argument capability's word, or the zero "no argument"
    /// sentinel when none was registered.
    pub arg_word: usize,
}

/// What one dispatch pass decided: either redirect into a handler, or
/// resume the interrupted process because no pending line had a handler.
#[derive(Clone, Copy, Debug, PartialEq, Eq)]
pub enum DispatchOutcome {
    Redirect(RedirectRequest),
    Resume,
}

/// The directive the trap-return path honors after a dispatch: resume
/// execution in whichever process is now current (the interrupted one, or
/// the one the scheduler just switched into).
#[derive(Clone, Copy, Debug, PartialEq, Eq)]
pub enum ResumeDirective {
    ResumeProcess,
}

/// Whether bit `i` of the pending snapshot is set, i.e. whether line `i`
/// is requesting service.
pub open spec fn pending_at(mask: usize, i: usize) -> bool {
    mask & (1usize << i) != 0
}

/// A registration is valid when its capabilities are non-zero words, so the
/// zero sentinel can never be mistaken for a real argument.
pub open spec fn reg_valid(reg: Registration) -> bool {
    &&& reg.entry.spec_value() != 0
    &&& (reg.arg matches Some(c) ==> c.spec_value() != 0)
}

pub open spec fn slot_valid(slot: Slot) -> bool {
    match slot {
        Slot::Empty => true,
        Slot::Registered(reg) => reg_valid(reg),
    }
}

/// Well-formedness of a registration table: one slot per line, each holding
/// a valid registration if any.
pub open spec fn table_wf(table: Seq<Slot>) -> bool {
    &&& table.len() == IRQ_COUNT
    &&& forall|i: int| 0 <= i < table.len() ==> slot_valid(#[trigger] table[i])
}

/// Line `i` is both pending and registered, so a dispatch pass would
/// redirect for it.
pub open spec fn line_handled(table: Seq<Slot>, mask: usize, i: int) -> bool {
    pending_at(mask, i as usize) && table[i] is Registered
}

/// The first line at or after `i` that is pending and registered, if any.
/// The ascending scan makes the lowest line number the effective highest
/// priority — a deliberate policy, not an accident.
pub open spec fn first_handled_from(table: Seq<Slot>, mask: usize, i: int) -> Option<usize>
    decreases IRQ_COUNT - i,
{
    if i < 0 || i >= IRQ_COUNT {
        None
    } else if line_handled(table, mask, i) {
        Some(i as usize)
    } else {
        first_handled_from(table, mask, i + 1)
    }
}

/// The line a dispatch pass redirects for, if any: the lowest line that is
/// both pending and registered.
pub open spec fn first_handled(table: Seq<Slot>, mask: usize) -> Option<usize> {
    first_handled_from(table, mask, 0)
}

/// The argument word a handler receives: the registered capability's value,
/// or the zero "no argument" sentinel.
pub open spec fn arg_word_of(arg: Option<Capability>) -> usize {
    match arg {
        Some(c) => c.spec_value(),
        None => 0,
    }
}

/// The redirect request a dispatch pass builds for registered line `line`.
pub open spec fn redirect_for(table: Seq<Slot>, line: int) -> RedirectRequest
    recommends
        0 <= line < table.len(),
        table[line] is Registered,
{
    let reg = table[line]->Registered_0;
    RedirectRequest {
        line: line as usize,
        pid: reg.pid,
        entry: reg.entry,
        arg_word: arg_word_of(reg.arg),
    }
}

/// The kernel-global interrupt state: the registration table and the
/// controller's enable state. Created once at kernel initialization and
/// alive for the whole uptime; the reference design exposes no way to
/// release a claimed line, and none is invented here.
pub struct IrqState {
    pub table: Vec<Slot>,
    pub controller: IrqController,
}

impl IrqState {
    pub open spec fn wf(self) -> bool {
        &&& table_wf(self.table@)
        &&& self.controller.wf()
    }

    /// The state the kernel boots with: no line claimed, no line enabled,
    /// delivery unmasked.
    pub fn new() -> (r: IrqState)
        ensures
            r.wf(),
            r.controller.all_masked == false,
            forall|i: int| 0 <= i < IRQ_COUNT ==> r.table@[i] is Empty,
            forall|i: int| 0 <= i < IRQ_COUNT ==> r.controller.enabled@[i] == false,
    {
        let mut table: Vec<Slot> = Vec::new();
        let mut i: usize = 0;
        while i < IRQ_COUNT
            invariant
                i <= IRQ_COUNT,
                table@.len() == i,
                forall|j: int| 0 <= j < i ==> table@[j] is Empty,
            decreases IRQ_COUNT - i,
        {
            table.push(Slot::Empty);
            i += 1;
        }
        IrqState { table, controller: IrqController::new() }
    }

    /// Registers `pid`'s handler for line `irq`: entry point `f`, optional
    /// argument capability `arg`.
    ///
    /// The whole check-then-install runs with every interrupt source masked,
    /// so delivery can never interleave with a partial update; the global
    /// mask is lifted again before returning. A line outside `[0, IRQ_COUNT)`
    /// is rejected outright (strict bound, checked before any table access),
    /// and so is a line that already has a registration — from any process,
    /// the claimant included. Only a successful claim touches the table or
    /// the line's enable bit.
    pub fn interrupt_claim(
        &mut self,
        irq: usize,
        pid: Pid,
        f: Capability,
        arg: Option<Capability>,
    ) -> (r: Result<(), IrqError>)
        requires
            old(self).wf(),
        ensures
            final(self).wf(),
            final(self).table@.len() == IRQ_COUNT,
            final(self).controller.all_masked == false,
            irq >= IRQ_COUNT ==> (r == Err::<(), IrqError>(IrqError::InterruptLineOutOfRange)
                && final(self).table@ == old(self).table@
                && final(self).controller.enabled@ == old(self).controller.enabled@),
            irq < IRQ_COUNT && old(self).table@[irq as int] is Registered ==> (r
                == Err::<(), IrqError>(IrqError::InterruptAlreadyClaimed)
                && final(self).table@ == old(self).table@
                && final(self).controller.enabled@ == old(self).controller.enabled@),
            irq < IRQ_COUNT && old(self).table@[irq as int] is Empty ==> (r is Ok
                && final(self).table@ == old(self).table@.update(
                    irq as int,
                    Slot::Registered((Registration { pid, entry: f, arg })),
                )
                && final(self).controller.enabled@ == old(self).controller.enabled@.update(
                    irq as int,
                    true,
                )),
    {
        self.controller.disable_all_irqs();
        let result = if irq >= IRQ_COUNT {
            Err(IrqError::InterruptLineOutOfRange)
        } else {
            match self.table[irq] {
                Slot::Registered(_) => Err(IrqError::InterruptAlreadyClaimed),
                Slot::Empty => {
                    proof {
                        use_type_invariant(f);
                        f.lemma_valid_nonzero();
                        if let Some(c) = arg {
                            use_type_invariant(c);
                            c.lemma_valid_nonzero();
                        }
                    }
                    self.table.set(irq, Slot::Registered(Registration { pid, entry: f, arg }));
                    proof {
                        assert forall|i: int| 0 <= i < self.table@.len() implies slot_valid(
                            #[trigger] self.table@[i],
                        ) by {
                            if i != irq {
                                assert(self.table@[i] == old(self).table@[i]);
                            }
                        }
                    }
                    self.controller.enable_irq(irq);
                    Ok(())
                },
            }
        };
        self.controller.enable_all_irqs();
        result
    }

    /// One dispatch pass, invoked exactly once per trap entry with the
    /// hardware's pending-line snapshot and delivery already disabled.
    ///
    /// Lines are scanned in ascending order. The first line that is both
    /// pending and registered ends the pass: every source is masked (a
    /// safety margin against re-entrant delivery during the redirect) and
    /// the pass reports the redirect request for the scheduler to carry out;
    /// remaining pending bits wait for the next re-assertion. A pending line
    /// with no registration is a misconfiguration: exactly that line is
    /// masked so it cannot storm, and the scan continues. If no pending line
    /// has a handler, the pass still yields the default "resume the
    /// interrupted process" outcome, so the trap-return path always has a
    /// defined action. The table is never written here.
    pub fn handle(&mut self, irqs_pending: usize) -> (r: Result<DispatchOutcome, IrqError>)
        requires
            old(self).wf(),
        ensures
            final(self).wf(),
            final(self).table@ == old(self).table@,
            r is Ok,
            first_handled(old(self).table@, irqs_pending) matches Some(k) ==> (r == Ok::<
                DispatchOutcome,
                IrqError,
            >(DispatchOutcome::Redirect(redirect_for(old(self).table@, k as int)))
                && final(self).controller.all_masked == true
                && forall|i: int|
                    0 <= i < IRQ_COUNT ==> final(self).controller.enabled@[i] == (if i < k
                        && pending_at(irqs_pending, i as usize) {
                        false
                    } else {
                        old(self).controller.enabled@[i]
                    })),
            first_handled(old(self).table@, irqs_pending) is None ==> (r == Ok::<
                DispatchOutcome,
                IrqError,
            >(DispatchOutcome::Resume)
                && final(self).controller.all_masked == old(self).controller.all_masked
                && forall|i: int|
                    0 <= i < IRQ_COUNT ==> final(self).controller.enabled@[i] == (if pending_at(
                        irqs_pending,
                        i as usize,
                    ) {
                        false
                    } else {
                        old(self).controller.enabled@[i]
                    })),
            irqs_pending == 0 ==> (r == Ok::<DispatchOutcome, IrqError>(DispatchOutcome::Resume)
                && final(self).controller.enabled@ == old(self).controller.enabled@
                && final(self).controller.all_masked == old(self).controller.all_masked),
    {
        let mut irq_no: usize = 0;
        while irq_no < IRQ_COUNT
            invariant
                self.wf(),
                irq_no <= IRQ_COUNT,
                self.table@ == old(self).table@,
                self.controller.all_masked == old(self).controller.all_masked,
                forall|i: int| 0 <= i < irq_no ==> !line_handled(old(self).table@, irqs_pending, i),
                forall|i: int|
                    0 <= i < IRQ_COUNT ==> self.controller.enabled@[i] == (if i < irq_no
                        && pending_at(irqs_pending, i as usize) {
                        false
                    } else {
                        old(self).controller.enabled@[i]
                    }),
            decreases IRQ_COUNT - irq_no,
        {
            if irqs_pending & (1usize << irq_no) != 0 {
                match self.table[irq_no] {
                    Slot::Registered(reg) => {
                        // Disable all other interrupt sources and redirect
                        // into the owning process.
                        self.controller.disable_all_irqs();
                        let arg_word = match reg.arg {
                            Some(c) => c.get(),
                            None => 0,
                        };
                        proof {
                            lemma_first_handled_prefix(
                                old(self).table@,
                                irqs_pending,
                                irq_no as int,
                            );
                            assert(irqs_pending != 0) by (bit_vector)
                                requires
                                    irqs_pending & (1usize << irq_no) != 0,
                            ;
                        }
                        return Ok(DispatchOutcome::Redirect(RedirectRequest {
                            line: irq_no,
                            pid: reg.pid,
                            entry: reg.entry,
                            arg_word,
                        }));
                    },
                    Slot::Empty => {
                        // No handler listens on this line: mask it to stop
                        // an interrupt storm, and keep scanning the rest of
                        // the snapshot.
                        match self.controller.disable_irq(irq_no) {
                            Ok(_) => (),
                            Err(e) => {
                                return Err(e);
                            },
                        }
                    },
                }
            }
            irq_no += 1;
        }
        proof {
            lemma_first_handled_prefix(old(self).table@, irqs_pending, IRQ_COUNT as int);
            if irqs_pending == 0 {
                assert forall|i: int|
                    0 <= i < IRQ_COUNT implies self.controller.enabled@[i] == old(
                    self,
                ).controller.enabled@[i] by {
                    let iu = i as usize;
                    assert(0usize & (1usize << iu) == 0) by (bit_vector);
                }
                assert(self.controller.enabled@ =~= old(self).controller.enabled@);
            }
        }
        Ok(DispatchOutcome::Resume)
    }
}

/// Folds the scheduler collaborator's answer to a redirect request into the
/// directive the trap-return path honors: a completed context switch means
/// "resume execution in the process now current", and a failure (the owner
/// has exited, say) is propagated unchanged as the dispatch error.
pub fn resume_after_callback(callback_result: Result<(), IrqError>) -> (r: Result<
    ResumeDirective,
    IrqError,
>)
    ensures
        callback_result is Ok ==> r == Ok::<ResumeDirective, IrqError>(
            ResumeDirective::ResumeProcess,
        ),
        callback_result matches Err(e) ==> r == Err::<ResumeDirective, IrqError>(e),
{
    match callback_result {
        Ok(_) => Ok(ResumeDirective::ResumeProcess),
        Err(e) => Err(e),
    }
}

/// A scan that found no pending-and-registered line among the first `k`
/// starts effectively at `k`.
proof fn lemma_first_handled_prefix(table: Seq<Slot>, mask: usize, k: int)
    requires
        0 <= k <= IRQ_COUNT,
        forall|i: int| 0 <= i < k ==> !line_handled(table, mask, i),
    ensures
        first_handled(table, mask) == first_handled_from(table, mask, k),
    decreases k,
{
    if k > 0 {
        lemma_first_handled_prefix(table, mask, k - 1);
    }
}

/// Law: redirect argument integrity. In any table where line `line` holds
/// the registration `(pid, entry, arg)`, dispatching a snapshot with exactly
/// bit `line` set selects that line and builds the redirect request with
/// that very owner, that very entry capability, the triggering line number,
/// and the word of `arg` (or the zero sentinel). Together with `handle`'s
/// contract, this pins the one scheduler call a dispatch of `1 << line`
/// makes after a successful claim.
pub proof fn lemma_redirect_argument_integrity(
    table: Seq<Slot>,
    line: usize,
    pid: Pid,
    entry: Capability,
    arg: Option<Capability>,
)
    requires
        table.len() == IRQ_COUNT,
        line < IRQ_COUNT,
        table[line as int] == Slot::Registered((Registration { pid, entry, arg })),
    ensures
        first_handled(table, 1usize << line) == Some(line),
        redirect_for(table, line as int) == (RedirectRequest {
            line,
            pid,
            entry,
            arg_word: arg_word_of(arg),
        }),
{
    lemma_single_bit_selects(table, 1usize << line, line);
}

/// Law: no-argument sentinel. In a well-formed table, the redirect built
/// for a registered line carries the zero argument word exactly when the
/// claim was made without an argument capability: a real argument is a
/// non-zero word, so the sentinel can never be mistaken for one.
pub proof fn lemma_no_argument_sentinel(table: Seq<Slot>, line: int)
    requires
        table_wf(table),
        0 <= line < table.len(),
        table[line] is Registered,
    ensures
        redirect_for(table, line).arg_word == 0 <==> table[line]->Registered_0.arg is None,
{
}

/// Law: multi-bit scan continuation. When the snapshot holds exactly two
/// bits — a lower, unregistered line and a higher, registered one — the
/// scan selects the higher line for the redirect, and the lower line is
/// still pending, so `handle`'s contract masks it in the same pass.
pub proof fn lemma_multi_bit_scan_continuation(table: Seq<Slot>, low: usize, high: usize)
    requires
        table.len() == IRQ_COUNT,
        low < high < IRQ_COUNT,
        table[low as int] is Empty,
        table[high as int] is Registered,
    ensures
        first_handled(table, (1usize << low) | (1usize << high)) == Some(high),
        pending_at((1usize << low) | (1usize << high), low),
{
    let mask = (1usize << low) | (1usize << high);
    assert(mask & (1usize << low) != 0) by (bit_vector)
        requires
            mask == (1usize << low) | (1usize << high),
            low < 32usize,
    ;
    assert forall|i: int| 0 <= i < high implies !line_handled(table, mask, i) by {
        if i != low {
            let iu = i as usize;
            assert(mask & (1usize << iu) == 0) by (bit_vector)
                requires
                    mask == (1usize << low) | (1usize << high),
                    iu < 32usize,
                    low < 32usize,
                    high < 32usize,
                    iu != low,
                    iu != high,
            ;
        }
    }
    lemma_first_handled_prefix(table, mask, high as int);
    assert(mask & (1usize << high) != 0) by (bit_vector)
        requires
            mask == (1usize << low) | (1usize << high),
            high < 32usize,
    ;
}

/// A snapshot that is exactly one bit selects exactly that line, provided
/// a handler is registered for it.
proof fn lemma_single_bit_selects(table: Seq<Slot>, mask: usize, line: usize)
    requires
        table.len() == IRQ_COUNT,
        line < IRQ_COUNT,
        mask == 1usize << line,
        table[line as int] is Registered,
    ensures
        first_handled(table, mask) == Some(line),
{
    assert forall|i: int| 0 <= i < line implies !line_handled(table, mask, i) by {
        let iu = i as usize;
        assert(mask & (1usize << iu) == 0) by (bit_vector)
            requires
                mask == 1usize << line,
                iu < 32usize,
                line < 32usize,
                iu != line,
        ;
    }
    lemma_first_handled_prefix(table, mask, line as int);
    assert(mask & (1usize << line) != 0) by (bit_vector)
        requires
            mask == 1usize << line,
            line < 32usize,
    ;
}

} // verus!
