use vstd::prelude::*;

use crate::action::{is_default_action, SignalAction, SignalActionFlag, SignalDisposition};
use crate::frame::{
    frame_of, restored_frame, GeneralRegisters, SignalFrame, SignalStack, TrapFrame, UserMemory,
    SIGINFO_OFFSET, SIGNAL_FRAME_ALIGN, SIGNAL_FRAME_SIZE, UCONTEXT_OFFSET,
};
use crate::info::SignalInfo;
use crate::pending::{
    accepts, dequeue_model, lemma_dequeue_count, no_pending, pending_count, pending_signals,
    put_model, PendingQueues, PendingSignals,
};
use crate::process::{ignores, ProcessSignalManager};
use crate::set::SignalSet;
use crate::signo::{DefaultSignalAction, Signo};

verus! {

/// What the kernel has to do about a delivered signal.
#[derive(Clone, Copy, Debug, PartialEq, Eq, Structural)]
pub enum SignalOSAction {
    /// End the process.
    Terminate,
    /// End the process and dump its core.
    CoreDump,
    /// Stop the process.
    Stop,
    /// Continue the process.
    Continue,
    /// A user handler has been set up: return to user space.
    Handler,
}

/// What the kernel does about `signo` under the default disposition;
/// `None` when the default is to ignore it.
pub open spec fn default_os_action(signo: Signo) -> Option<SignalOSAction> {
    match signo.spec_default_action() {
        DefaultSignalAction::Terminate => Some(SignalOSAction::Terminate),
        DefaultSignalAction::CoreDump => Some(SignalOSAction::CoreDump),
        DefaultSignalAction::Stop => Some(SignalOSAction::Stop),
        DefaultSignalAction::Continue => Some(SignalOSAction::Continue),
        DefaultSignalAction::Ignore => None,
    }
}

/// The stack a handler runs on: the alternate stack when the action asks
/// for it and the stack is enabled, else the interrupted one.
pub open spec fn handler_stack_top(stack: SignalStack, tf: TrapFrame, action: SignalAction) -> usize {
    if stack.is_disabled() || !action.flags.has(SignalActionFlag::ONSTACK) {
        tf.regs.sp
    } else {
        stack.sp
    }
}

/// Where the signal frame goes below stack top `sp`: room for the frame,
/// rounded down to its alignment; `None` when the frame does not fit.
pub open spec fn frame_address(sp: usize) -> Option<usize> {
    if sp < SIGNAL_FRAME_SIZE {
        None
    } else {
        Some(((sp - SIGNAL_FRAME_SIZE) as usize) & !((SIGNAL_FRAME_ALIGN - 1) as usize))
    }
}

/// The trap frame that enters `handler` for `signo` with its frame at
/// `addr`: the handler's address as pc, the frame as stack, the signal,
/// its info and its context as arguments, the restorer as return address.
pub open spec fn handler_entry(
    tf: TrapFrame,
    handler: usize,
    addr: usize,
    signo: Signo,
    restorer: usize,
) -> TrapFrame {
    TrapFrame {
        regs: GeneralRegisters {
            ra: restorer,
            sp: addr,
            a0: signo.nr() as usize,
            a1: (addr + SIGINFO_OFFSET) as usize,
            a2: (addr + UCONTEXT_OFFSET) as usize,
            ..tf.regs
        },
        sepc: handler,
        ..tf
    }
}

/// The signals that running a handler of `action` for `signo` blocks: the
/// action's mask, and the signal itself unless `SA_NODEFER` is set.
pub open spec fn handler_mask(action: SignalAction, signo: Signo) -> Set<Signo> {
    if action.flags.has(SignalActionFlag::NODEFER) {
        action.mask@
    } else {
        action.mask@.insert(signo)
    }
}

/// The return trampoline of a handler: the action's own, else the process's.
pub open spec fn restorer_for(action: SignalAction, default_restorer: usize) -> usize {
    match action.restorer {
        Some(r) => r,
        None => default_restorer,
    }
}

/// The process's state apart from its action table is the same in `proc_before` and `proc_after`.
pub open spec fn same_but_actions(proc_before: ProcessSignalManager, proc_after: ProcessSignalManager) -> bool {
    &&& proc_after.spec_pending() == proc_before.spec_pending()
    &&& proc_after.spec_children() == proc_before.spec_children()
    &&& proc_after.spec_hint() == proc_before.spec_hint()
    &&& proc_after.spec_stop_event() == proc_before.spec_stop_event()
    &&& proc_after.spec_cont_event() == proc_before.spec_cont_event()
    &&& proc_after.spec_last_stop() == proc_before.spec_last_stop()
    &&& proc_after.spec_default_restorer() == proc_before.spec_default_restorer()
    &&& proc_after.wf() == proc_before.wf()
}

/// The thread's state apart from its blocked mask is the same in `thr_before` and `thr_after`.
pub open spec fn same_but_blocked(thr_before: ThreadSignalManager, thr_after: ThreadSignalManager) -> bool {
    &&& thr_after.spec_tid() == thr_before.spec_tid()
    &&& thr_after.spec_pending() == thr_before.spec_pending()
    &&& thr_after.spec_stack() == thr_before.spec_stack()
    &&& thr_after.spec_hint() == thr_before.spec_hint()
    &&& thr_after.wf() == thr_before.wf()
}

/// How a handler of `action` for `signo` at `handler` was entered with its
/// frame at `addr`: the trap frame enters the handler, the thread blocks
/// the handler's mask on top of what it blocked, and with `SA_RESETHAND`
/// the signal's action is back to the default.
pub open spec fn handler_entered(
    thr_before: ThreadSignalManager,
    thr_after: ThreadSignalManager,
    proc_before: ProcessSignalManager,
    proc_after: ProcessSignalManager,
    tf_before: TrapFrame,
    tf_after: TrapFrame,
    signo: Signo,
    action: SignalAction,
    handler: usize,
    addr: usize,
) -> bool {
    &&& tf_after == handler_entry(tf_before, handler, addr, signo, restorer_for(action, proc_before.spec_default_restorer()))
    &&& thr_after.spec_blocked()@ == thr_before.spec_blocked()@.union(handler_mask(action, signo))
    &&& same_but_blocked(thr_before, thr_after)
    &&& same_but_actions(proc_before, proc_after)
    &&& if action.flags.has(SignalActionFlag::RESETHAND) {
        is_default_action(proc_after.spec_actions().spec_get(signo))
    } else {
        proc_after.spec_actions().spec_get(signo) == proc_before.spec_actions().spec_get(signo)
    }
    &&& forall|t: Signo| t != signo ==> proc_after.spec_actions().spec_get(t) == proc_before.spec_actions().spec_get(t)
}

/// Whether delivering `signo` under `action` does nothing at all: the
/// disposition is Ignore, or Default with a default action of Ignore.
pub open spec fn discards(action: SignalAction, signo: Signo) -> bool {
    match action.disposition {
        SignalDisposition::Ignore => true,
        SignalDisposition::Default => signo.spec_default_action() == DefaultSignalAction::Ignore,
        SignalDisposition::Handler(_) => false,
    }
}

/// Whether `s` is pending in the thread's store `thr` or the process's store `proc`.
pub open spec fn pending_in_either(thr: PendingQueues, proc: PendingQueues, s: Signo) -> bool {
    pending_signals(thr).contains(s) || pending_signals(proc).contains(s)
}

/// Sigreturn undoes handler entry: the handler starts with its stack
/// pointer at the frame written for it, and restoring from that frame gives
/// back the interrupted trap frame and the mask to return to.
pub proof fn lemma_sigreturn_restores(
    tf: TrapFrame,
    restore_blocked: SignalSet,
    sig: SignalInfo,
    handler: usize,
    addr: usize,
    restorer: usize,
)
    ensures
        handler_entry(tf, handler, addr, sig.signo, restorer).regs.sp == addr,
        restored_frame(frame_of(tf, restore_blocked, sig)) == tf,
        frame_of(tf, restore_blocked, sig).ucontext.sigmask == restore_blocked,
{
}

/// Nothing of the thread, its process or the trap frame has changed.
pub open spec fn untouched(
    thr_before: ThreadSignalManager,
    thr_after: ThreadSignalManager,
    proc_before: ProcessSignalManager,
    proc_after: ProcessSignalManager,
    tf_before: TrapFrame,
    tf_after: TrapFrame,
) -> bool {
    thr_after == thr_before && proc_after == proc_before && tf_after == tf_before
}

/// Signal management of one thread: the signals sent to the thread itself,
/// its blocked mask and its alternate stack.
#[derive(Debug)]
pub struct ThreadSignalManager {
    tid: u32,
    pending: PendingSignals,
    blocked: SignalSet,
    stack: SignalStack,
    possibly_has_signal: bool,
}

impl ThreadSignalManager {
    /// The thread's id.
    pub closed spec fn spec_tid(&self) -> u32 {
        self.tid
    }

    /// The signals pending for the thread itself.
    pub closed spec fn spec_pending(&self) -> PendingQueues {
        self.pending@
    }

    /// The signals the thread blocks.
    pub closed spec fn spec_blocked(&self) -> SignalSet {
        self.blocked
    }

    /// The thread's alternate signal stack.
    pub closed spec fn spec_stack(&self) -> SignalStack {
        self.stack
    }

    /// The hint that a signal may be pending for the thread.
    pub closed spec fn spec_hint(&self) -> bool {
        self.possibly_has_signal
    }

    /// The manager's invariant: a well formed store, and the hint set
    /// whenever a signal is pending.
    pub closed spec fn wf(&self) -> bool {
        &&& self.pending.wf()
        &&& pending_signals(self.pending@) != Set::<Signo>::empty() ==> self.possibly_has_signal
    }

    /// The pending models of a manager that keeps its invariant are well formed.
    pub proof fn lemma_wf(&self)
        requires
            self.wf(),
        ensures
            crate::pending::queues_wf(self.spec_pending()),
            pending_signals(self.spec_pending()) != Set::<Signo>::empty() ==> self.spec_hint(),
    {
        self.pending.lemma_wf();
    }

    /// A manager for thread `tid` of the process `proc`, registered with it:
    /// nothing pending, nothing blocked, no alternate stack.
    pub fn new(tid: u32, proc: &mut ProcessSignalManager) -> (r: ThreadSignalManager)
        ensures
            r.wf(),
            r.spec_tid() == tid,
            r.spec_pending() == no_pending(),
            r.spec_blocked()@ == Set::<Signo>::empty(),
            r.spec_stack() == (SignalStack { sp: 0, flags: crate::frame::SS_DISABLE, size: 0 }),
            !r.spec_hint(),
            final(proc).spec_children() == old(proc).spec_children().push(tid),
            final(proc).spec_pending() == old(proc).spec_pending(),
            final(proc).spec_actions() == old(proc).spec_actions(),
            final(proc).spec_default_restorer() == old(proc).spec_default_restorer(),
            final(proc).wf() == old(proc).wf(),
    {
        proc.register(tid);
        let r = ThreadSignalManager {
            tid,
            pending: PendingSignals::new(),
            blocked: SignalSet::new(),
            stack: SignalStack::new(),
            possibly_has_signal: false,
        };
        assert(pending_signals(no_pending()) =~= Set::<Signo>::empty());
        r
    }

    /// The thread's id.
    pub fn tid(&self) -> (r: u32)
        ensures
            r == self.spec_tid(),
    {
        self.tid
    }

    /// Takes out the next signal that `mask` lets through: from the
    /// thread's own pending signals first, else from the process's.
    pub fn dequeue_signal(&mut self, proc: &mut ProcessSignalManager, mask: &SignalSet) -> (r: Option<
        SignalInfo,
    >)
        requires
            old(self).wf(),
            old(proc).wf(),
        ensures
            final(self).wf(),
            final(proc).wf(),
            dequeue_model(old(self).spec_pending(), mask@).1 is Some ==> {
                &&& (final(self).spec_pending(), r) == dequeue_model(old(self).spec_pending(), mask@)
                &&& final(self).spec_hint() == old(self).spec_hint()
                &&& *final(proc) == *old(proc)
            },
            dequeue_model(old(self).spec_pending(), mask@).1 is None ==> {
                &&& final(self).spec_pending() == old(self).spec_pending()
                &&& final(self).spec_hint() == (old(self).spec_hint() && pending_signals(
                    old(self).spec_pending(),
                ) != Set::<Signo>::empty())
                &&& (final(proc).spec_pending(), r) == dequeue_model(old(proc).spec_pending(), mask@)
                &&& final(proc).spec_hint() == (old(proc).spec_hint() && pending_signals(
                    final(proc).spec_pending(),
                ) != Set::<Signo>::empty())
            },
            final(proc).spec_actions() == old(proc).spec_actions(),
            final(proc).spec_default_restorer() == old(proc).spec_default_restorer(),
            final(proc).spec_children() == old(proc).spec_children(),
            final(proc).spec_stop_event() == old(proc).spec_stop_event(),
            final(proc).spec_cont_event() == old(proc).spec_cont_event(),
            final(proc).spec_last_stop() == old(proc).spec_last_stop(),
            final(self).spec_tid() == old(self).spec_tid(),
            final(self).spec_blocked() == old(self).spec_blocked(),
            final(self).spec_stack() == old(self).spec_stack(),
    {
        let ghost before = self.pending@;
        proof {
            self.pending.lemma_wf();
            crate::pending::lemma_dequeue(before, mask@);
        }
        match self.pending.dequeue_signal(mask) {
            Some(sig) => {
                proof {
                    if pending_signals(before) == Set::<Signo>::empty() {
                        crate::pending::lemma_nonempty_shrink(before, self.pending@);
                    }
                }
                return Some(sig);
            },
            None => {
                if self.pending.set().is_empty() {
                    self.possibly_has_signal = false;
                }
            },
        }
        proc.dequeue_signal(mask)
    }

    /// Sends `sig` to this thread. Unless the process ignores the signal,
    /// it is put in the thread's pending signals. Returns whether the thread
    /// should be woken: the signal is not ignored and not blocked.
    pub fn send_signal(&mut self, proc: &ProcessSignalManager, sig: SignalInfo) -> (r: bool)
        requires
            old(self).wf(),
        ensures
            final(self).wf(),
            ignores(proc.spec_actions().spec_get(sig.signo), sig.signo) ==> !r && *final(self)
                == *old(self),
            !ignores(proc.spec_actions().spec_get(sig.signo), sig.signo) ==> {
                &&& r == !old(self).spec_blocked()@.contains(sig.signo)
                &&& final(self).spec_pending() == put_model(old(self).spec_pending(), sig)
                &&& final(self).spec_hint() == (old(self).spec_hint() || accepts(
                    old(self).spec_pending(),
                    sig,
                ))
            },
            old(self).spec_blocked()@.contains(sig.signo) && !ignores(
                proc.spec_actions().spec_get(sig.signo),
                sig.signo,
            ) ==> !r && pending_signals(final(self).spec_pending()).contains(sig.signo),
            final(self).spec_tid() == old(self).spec_tid(),
            final(self).spec_blocked() == old(self).spec_blocked(),
            final(self).spec_stack() == old(self).spec_stack(),
    {
        proof {
            self.pending.lemma_wf();
            assert(self.pending@.dom().contains(sig.signo));
        }
        let signo = sig.signo();
        if proc.signal_ignored(signo) {
            return false;
        }
        if self.pending.put_signal(sig) {
            self.possibly_has_signal = true;
        }
        !self.signal_blocked(signo)
    }

    /// The rest of handler entry, once the frame has been written at
    /// `addr` (`written`) or the write has faulted: on a fault nothing
    /// changes and the process has to dump core; else the trap frame enters
    /// `handler` and the thread blocks the handler's mask.
    pub fn enter_handler(
        &mut self,
        proc: &mut ProcessSignalManager,
        tf: &mut TrapFrame,
        signo: Signo,
        action: &SignalAction,
        handler: usize,
        addr: usize,
        written: bool,
    ) -> (r: SignalOSAction)
        requires
            addr + SIGNAL_FRAME_SIZE <= usize::MAX,
        ensures
            !written ==> r == SignalOSAction::CoreDump && untouched(
                *old(self),
                *final(self),
                *old(proc),
                *final(proc),
                *old(tf),
                *final(tf),
            ),
            written ==> r == SignalOSAction::Handler && handler_entered(
                *old(self),
                *final(self),
                *old(proc),
                *final(proc),
                *old(tf),
                *final(tf),
                signo,
                *action,
                handler,
                addr,
            ),
    {
        if !written {
            return SignalOSAction::CoreDump;
        }
        let restorer = match action.restorer {
            Some(r) => r,
            None => proc.default_restorer(),
        };
        tf.sepc = handler;
        tf.regs.sp = addr;
        tf.regs.a0 = signo.number() as usize;
        tf.regs.a1 = addr + SIGINFO_OFFSET;
        tf.regs.a2 = addr + UCONTEXT_OFFSET;
        tf.regs.ra = restorer;

        let mut add_blocked = action.mask;
        if !action.flags.contains(SignalActionFlag::NODEFER) {
            add_blocked.add(signo);
        }
        if action.flags.contains(SignalActionFlag::RESETHAND) {
            proc.set_action(signo, SignalAction::new());
        }
        self.blocked.add_from(&add_blocked);
        SignalOSAction::Handler
    }

    /// Acts on `sig` under `action`. The default disposition gives the
    /// kernel's action (`None` for a signal ignored by default); Ignore
    /// gives `None`. A handler gets a signal frame, written through `mem`
    /// below the chosen stack top, and the trap frame is made to enter it:
    /// `Handler`; if the frame does not fit or cannot be written, nothing
    /// changes and the result is `CoreDump`.
    pub fn handle_signal<M: UserMemory>(
        &mut self,
        proc: &mut ProcessSignalManager,
        tf: &mut TrapFrame,
        restore_blocked: SignalSet,
        sig: &SignalInfo,
        action: &SignalAction,
        mem: &mut M,
    ) -> (r: Option<SignalOSAction>)
        ensures
            match action.disposition {
                SignalDisposition::Default => r == default_os_action(sig.signo) && untouched(
                    *old(self),
                    *final(self),
                    *old(proc),
                    *final(proc),
                    *old(tf),
                    *final(tf),
                ),
                SignalDisposition::Ignore => r is None && untouched(
                    *old(self),
                    *final(self),
                    *old(proc),
                    *final(proc),
                    *old(tf),
                    *final(tf),
                ),
                SignalDisposition::Handler(h) => {
                    ||| r == Some(SignalOSAction::CoreDump) && untouched(
                        *old(self),
                        *final(self),
                        *old(proc),
                        *final(proc),
                        *old(tf),
                        *final(tf),
                    )
                    ||| r == Some(SignalOSAction::Handler) && (frame_address(
                        handler_stack_top(old(self).spec_stack(), *old(tf), *action),
                    ) matches Some(addr) && handler_entered(
                        *old(self),
                        *final(self),
                        *old(proc),
                        *final(proc),
                        *old(tf),
                        *final(tf),
                        sig.signo,
                        *action,
                        h,
                        addr,
                    ))
                },
            },
            action.disposition is Handler && frame_address(
                handler_stack_top(old(self).spec_stack(), *old(tf), *action),
            ) is None ==> r == Some(SignalOSAction::CoreDump),
            r == Some(SignalOSAction::Handler) ==> handler_mask(*action, sig.signo).subset_of(
                final(self).spec_blocked()@,
            ),
    {
        let signo = sig.signo();
        match action.disposition {
            SignalDisposition::Default => match signo.default_action() {
                DefaultSignalAction::Terminate => Some(SignalOSAction::Terminate),
                DefaultSignalAction::CoreDump => Some(SignalOSAction::CoreDump),
                DefaultSignalAction::Stop => Some(SignalOSAction::Stop),
                DefaultSignalAction::Ignore => None,
                DefaultSignalAction::Continue => Some(SignalOSAction::Continue),
            },
            SignalDisposition::Ignore => None,
            SignalDisposition::Handler(handler) => {
                let sp = if self.stack.disabled() || !action.flags.contains(
                    SignalActionFlag::ONSTACK,
                ) {
                    tf.sp()
                } else {
                    self.stack.sp
                };
                if sp < SIGNAL_FRAME_SIZE {
                    return Some(SignalOSAction::CoreDump);
                }
                let aligned_sp = (sp - SIGNAL_FRAME_SIZE) & !(SIGNAL_FRAME_ALIGN - 1);
                proof {
                    let x = (sp - SIGNAL_FRAME_SIZE) as usize;
                    assert(x & !(15usize) <= x) by (bit_vector);
                }
                let frame = SignalFrame::new(tf, restore_blocked, sig);
                let written = mem.write_frame(aligned_sp, &frame);
                Some(self.enter_handler(proc, tf, signo, action, handler, aligned_sp, written))
            },
        }
    }

    /// Checks for a signal to deliver on the way back to user space. Takes
    /// out, one by one, the pending signals that the blocked mask lets
    /// through, the thread's before the process's, and acts on each under
    /// the process's action table (see `handle_signal`) until one needs
    /// the kernel to act: that signal and the action are returned. Signals
    /// that are ignored are dropped on the way. `restore_blocked` is the
    /// mask a handler returns to, by default the current one.
    pub fn check_signals<M: UserMemory>(
        &mut self,
        proc: &mut ProcessSignalManager,
        tf: &mut TrapFrame,
        restore_blocked: Option<SignalSet>,
        mem: &mut M,
    ) -> (r: Option<(SignalInfo, SignalOSAction)>)
        requires
            old(self).wf(),
            old(proc).wf(),
        ensures
            final(self).wf(),
            final(proc).wf(),
            r is None ==> {
                &&& *final(tf) == *old(tf)
                &&& final(self).spec_blocked() == old(self).spec_blocked()
                &&& forall|s: Signo|
                    !old(self).spec_blocked()@.contains(s) && #[trigger] pending_in_either(
                        old(self).spec_pending(),
                        old(proc).spec_pending(),
                        s,
                    ) ==> discards(old(proc).spec_actions().spec_get(s), s)
                &&& pending_signals(final(self).spec_pending()).disjoint(
                    old(self).spec_blocked()@.complement(),
                )
                &&& pending_signals(final(proc).spec_pending()).disjoint(
                    old(self).spec_blocked()@.complement(),
                )
            },
            r matches Some((sig, a)) ==> {
                &&& !old(self).spec_blocked()@.contains(sig.signo)
                &&& pending_in_either(old(self).spec_pending(), old(proc).spec_pending(), sig.signo)
                &&& match old(proc).spec_actions().spec_get(sig.signo).disposition {
                    SignalDisposition::Default => Some(a) == default_os_action(sig.signo),
                    SignalDisposition::Ignore => false,
                    SignalDisposition::Handler(_) => a == SignalOSAction::Handler || a
                        == SignalOSAction::CoreDump,
                }
            },
    {
        if !self.possibly_has_signal && !proc.possibly_has_signal() {
            proof {
                proc.lemma_wf();
                assert(pending_signals(self.spec_pending()) =~= Set::<Signo>::empty());
                assert(pending_signals(proc.spec_pending()) =~= Set::<Signo>::empty());
            }
            return None;
        }
        let blocked = self.blocked;
        let mask = blocked.complement();
        let restore = match restore_blocked {
            Some(b) => b,
            None => blocked,
        };
        loop
            invariant
                self.wf(),
                proc.wf(),
                self.blocked == old(self).spec_blocked(),
                blocked == old(self).spec_blocked(),
                mask@ == blocked@.complement(),
                *tf == *old(tf),
                proc.spec_actions() == old(proc).spec_actions(),
                forall|s: Signo|
                    mask@.contains(s) && #[trigger] pending_in_either(
                        old(self).spec_pending(),
                        old(proc).spec_pending(),
                        s,
                    ) && !pending_in_either(self.spec_pending(), proc.spec_pending(), s)
                        ==> discards(old(proc).spec_actions().spec_get(s), s),
                forall|s: Signo|
                    #[trigger] pending_in_either(self.spec_pending(), proc.spec_pending(), s)
                        ==> pending_in_either(old(self).spec_pending(), old(proc).spec_pending(), s),
            decreases pending_count(self.spec_pending()) + pending_count(proc.spec_pending()),
        {
            let ghost thr_before = *self;
            let ghost proc_before = *proc;
            proof {
                self.lemma_wf();
                proc.lemma_wf();
                crate::pending::lemma_dequeue(self.spec_pending(), mask@);
                crate::pending::lemma_dequeue(proc.spec_pending(), mask@);
            }
            let sig = match self.dequeue_signal(proc, &mask) {
                Some(sig) => sig,
                None => {
                    return None;
                },
            };
            proof {
                if dequeue_model(thr_before.spec_pending(), mask@).1 is Some {
                    lemma_dequeue_count(thr_before.spec_pending(), mask@);
                } else {
                    lemma_dequeue_count(proc_before.spec_pending(), mask@);
                }
                crate::set::lemma_lowest(pending_signals(thr_before.spec_pending()).intersect(mask@));
                crate::set::lemma_lowest(pending_signals(proc_before.spec_pending()).intersect(mask@));
                assert(pending_in_either(thr_before.spec_pending(), proc_before.spec_pending(), sig.signo));
                assert forall|t: Signo| #[trigger] pending_in_either(self.spec_pending(), proc.spec_pending(), t)
                    implies pending_in_either(thr_before.spec_pending(), proc_before.spec_pending(), t) by {
                    assert(thr_before.spec_pending().dom().contains(t));
                    assert(proc_before.spec_pending().dom().contains(t));
                }
                assert forall|t: Signo| t != sig.signo implies pending_in_either(
                    self.spec_pending(),
                    proc.spec_pending(),
                    t,
                ) == pending_in_either(thr_before.spec_pending(), proc_before.spec_pending(), t) by {
                    assert(pending_signals(self.spec_pending()).contains(t) == pending_signals(
                        thr_before.spec_pending(),
                    ).contains(t));
                    assert(pending_signals(proc.spec_pending()).contains(t) == pending_signals(
                        proc_before.spec_pending(),
                    ).contains(t));
                }
            }
            let action = *proc.actions().get(sig.signo());
            match self.handle_signal(proc, tf, restore, &sig, &action, mem) {
                Some(os_action) => {
                    return Some((sig, os_action));
                },
                None => {},
            }
        }
    }

    /// Puts back, from `frame`, what handler entry changed: the trap frame
    /// and the blocked mask. The hint is set, since the mask may let a
    /// pending signal through again.
    pub fn restore_frame(&mut self, tf: &mut TrapFrame, frame: &SignalFrame)
        requires
            old(self).wf(),
        ensures
            final(self).wf(),
            *final(tf) == restored_frame(*frame),
            final(self).spec_blocked() == frame.ucontext.sigmask,
            final(self).spec_hint(),
            final(self).spec_pending() == old(self).spec_pending(),
            final(self).spec_tid() == old(self).spec_tid(),
            final(self).spec_stack() == old(self).spec_stack(),
    {
        *tf = frame.tf;
        frame.ucontext.mcontext.restore(tf);
        self.blocked = frame.ucontext.sigmask;
        self.possibly_has_signal = true;
    }

    /// Returns from a handler (`sigreturn`): reads the signal frame at the
    /// stack pointer through `mem` and restores from it (see
    /// `restore_frame`). Returns `false`, changing nothing, when the read
    /// faults.
    pub fn restore<M: UserMemory>(&mut self, tf: &mut TrapFrame, mem: &mut M) -> (r: bool)
        requires
            old(self).wf(),
        ensures
            final(self).wf(),
            !r ==> *final(self) == *old(self) && *final(tf) == *old(tf),
            r ==> exists|frame: SignalFrame|
                {
                    &&& *final(tf) == restored_frame(frame)
                    &&& final(self).spec_blocked() == frame.ucontext.sigmask
                    &&& final(self).spec_hint()
                    &&& final(self).spec_pending() == old(self).spec_pending()
                    &&& final(self).spec_tid() == old(self).spec_tid()
                    &&& final(self).spec_stack() == old(self).spec_stack()
                },
    {
        match mem.read_frame(tf.sp()) {
            Some(frame) => {
                self.restore_frame(tf, &frame);
                true
            },
            None => false,
        }
    }

    /// The signals the thread blocks.
    pub fn blocked(&self) -> (r: SignalSet)
        ensures
            r == self.spec_blocked(),
    {
        self.blocked
    }

    /// Replaces the blocked mask and returns the old one. The hint is set,
    /// since the new mask may let a pending signal through.
    pub fn set_blocked(&mut self, blocked: SignalSet) -> (r: SignalSet)
        requires
            old(self).wf(),
        ensures
            final(self).wf(),
            r == old(self).spec_blocked(),
            final(self).spec_blocked() == blocked,
            final(self).spec_hint(),
            final(self).spec_pending() == old(self).spec_pending(),
            final(self).spec_tid() == old(self).spec_tid(),
            final(self).spec_stack() == old(self).spec_stack(),
    {
        let prev = self.blocked;
        self.blocked = blocked;
        self.possibly_has_signal = true;
        prev
    }

    /// Whether the thread blocks `signo`.
    pub fn signal_blocked(&self, signo: Signo) -> (r: bool)
        ensures
            r == self.spec_blocked()@.contains(signo),
    {
        self.blocked.has(signo)
    }

    /// The alternate signal stack.
    pub fn stack(&self) -> (r: SignalStack)
        ensures
            r == self.spec_stack(),
    {
        self.stack
    }

    /// Replaces the alternate signal stack.
    pub fn set_stack(&mut self, stack: SignalStack)
        ensures
            final(self).spec_stack() == stack,
            final(self).spec_tid() == old(self).spec_tid(),
            final(self).spec_pending() == old(self).spec_pending(),
            final(self).spec_blocked() == old(self).spec_blocked(),
            final(self).spec_hint() == old(self).spec_hint(),
            final(self).wf() == old(self).wf(),
    {
        self.stack = stack;
    }

    /// The signals pending for the thread: its own and its process's.
    pub fn pending(&self, proc: &ProcessSignalManager) -> (r: SignalSet)
        requires
            self.wf(),
            proc.wf(),
        ensures
            r@ == pending_signals(self.spec_pending()).union(pending_signals(proc.spec_pending())),
    {
        self.pending.set().union(&proc.pending())
    }

    /// Whether the hint that a signal may be pending for the thread is set.
    pub fn possibly_has_signal(&self) -> (r: bool)
        ensures
            r == self.spec_hint(),
    {
        self.possibly_has_signal
    }
}

} // verus!
