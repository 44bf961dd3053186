use vstd::prelude::*;

use crate::action::{SignalAction, SignalActionFlag, SignalActions, SignalDisposition};
use crate::info::SignalInfo;
use crate::pending::{
    dequeue_model, no_pending, pending_signals, put_model, remove_model, PendingQueues,
    PendingSignals,
};
use crate::set::SignalSet;
use crate::signo::{lemma_from_nr_nr, DefaultSignalAction, Signo};
use crate::thread::ThreadSignalManager;

verus! {

/// Whether a process with action `action` for `signo` discards the signal:
/// never for a signal with side effects, else when the disposition is
/// Ignore, or Default with a default action of Ignore.
pub open spec fn ignores(action: SignalAction, signo: Signo) -> bool {
    !signo.spec_has_side_effect() && match action.disposition {
        SignalDisposition::Ignore => true,
        SignalDisposition::Default => signo.spec_default_action() == DefaultSignalAction::Ignore,
        SignalDisposition::Handler(_) => false,
    }
}

/// Whether some thread of `threads` has id `tid`.
pub open spec fn is_live(threads: Seq<ThreadSignalManager>, tid: u32) -> bool {
    exists|i: int| 0 <= i < threads.len() && (#[trigger] threads[i]).spec_tid() == tid
}

/// Whether some thread of `threads` with id `tid` does not block `signo`.
pub open spec fn takes_signal(threads: Seq<ThreadSignalManager>, tid: u32, signo: Signo) -> bool {
    exists|i: int|
        0 <= i < threads.len() && (#[trigger] threads[i]).spec_tid() == tid
            && !threads[i].spec_blocked()@.contains(signo)
}

/// The registered ids of `children` whose thread is still in `threads`, in order.
pub open spec fn live_children(children: Seq<u32>, threads: Seq<ThreadSignalManager>) -> Seq<u32>
    decreases children.len(),
{
    if children.len() == 0 {
        Seq::empty()
    } else {
        let rest = live_children(children.drop_last(), threads);
        if is_live(threads, children.last()) {
            rest.push(children.last())
        } else {
            rest
        }
    }
}

/// The first id of `children` whose thread does not block `signo`.
pub open spec fn wake_target(children: Seq<u32>, threads: Seq<ThreadSignalManager>, signo: Signo) -> Option<u32>
    decreases children.len(),
{
    if children.len() == 0 {
        None
    } else {
        match wake_target(children.drop_last(), threads, signo) {
            Some(t) => Some(t),
            None => if takes_signal(threads, children.last(), signo) {
                Some(children.last())
            } else {
                None
            },
        }
    }
}

/// Wake targeting: the thread to wake is the first registered one, in
/// order of registration, that does not block the signal; there is none
/// only when every registered thread blocks it or is gone.
pub proof fn lemma_wake_target(children: Seq<u32>, threads: Seq<ThreadSignalManager>, signo: Signo)
    ensures
        wake_target(children, threads, signo) matches Some(t) ==> exists|j: int|
            0 <= j < children.len() && children[j] == t && takes_signal(threads, children[j], signo)
                && forall|i: int| 0 <= i < j ==> !takes_signal(threads, #[trigger] children[i], signo),
        wake_target(children, threads, signo) is None ==> forall|i: int|
            0 <= i < children.len() ==> !takes_signal(threads, #[trigger] children[i], signo),
    decreases children.len(),
{
    if children.len() > 0 {
        let init = children.drop_last();
        lemma_wake_target(init, threads, signo);
        let last = children.len() - 1;
        match wake_target(init, threads, signo) {
            Some(t) => {
                let j = choose|j: int|
                    0 <= j < init.len() && init[j] == t && takes_signal(threads, init[j], signo)
                        && forall|i: int| 0 <= i < j ==> !takes_signal(threads, #[trigger] init[i], signo);
                assert(children[j] == init[j]);
                assert forall|i: int| 0 <= i < j implies !takes_signal(threads, #[trigger] children[i], signo) by {
                    assert(children[i] == init[i]);
                }
            },
            None => {
                assert forall|i: int| 0 <= i < last implies !takes_signal(threads, #[trigger] children[i], signo) by {
                    assert(children[i] == init[i]);
                }
                if takes_signal(threads, children.last(), signo) {
                    assert(children[last] == children.last());
                }
            },
        }
    }
}

/// Signal management shared by the threads of a process: the pending
/// signals sent to the process, the action table, and the registry of its
/// threads.
#[derive(Debug)]
pub struct ProcessSignalManager {
    pending: PendingSignals,
    actions: SignalActions,
    default_restorer: usize,
    children: Vec<u32>,
    possibly_has_signal: bool,
    stop_event: bool,
    cont_event: bool,
    last_stop_signal: Option<Signo>,
}

impl ProcessSignalManager {
    /// The pending signals of the process.
    pub closed spec fn spec_pending(&self) -> PendingQueues {
        self.pending@
    }

    /// The action table.
    pub closed spec fn spec_actions(&self) -> SignalActions {
        self.actions
    }

    /// The return trampoline of handlers whose action names none.
    pub closed spec fn spec_default_restorer(&self) -> usize {
        self.default_restorer
    }

    /// The registered thread ids, in order of registration.
    pub closed spec fn spec_children(&self) -> Seq<u32> {
        self.children@
    }

    /// The hint that a signal may be pending.
    pub closed spec fn spec_hint(&self) -> bool {
        self.possibly_has_signal
    }

    /// Whether a stop has not been reported yet.
    pub closed spec fn spec_stop_event(&self) -> bool {
        self.stop_event
    }

    /// Whether a continue has not been reported yet.
    pub closed spec fn spec_cont_event(&self) -> bool {
        self.cont_event
    }

    /// The signal that stopped the process most recently.
    pub closed spec fn spec_last_stop(&self) -> Option<Signo> {
        self.last_stop_signal
    }

    /// The manager's invariant: a well formed store, and the hint set
    /// whenever a signal is pending.
    pub closed spec fn wf(&self) -> bool {
        &&& self.pending.wf()
        &&& pending_signals(self.pending@) != Set::<Signo>::empty() ==> self.possibly_has_signal
    }

    /// The pending model of a manager that keeps its invariant is well formed,
    /// and the hint is set whenever a signal is pending.
    pub proof fn lemma_wf(&self)
        requires
            self.wf(),
        ensures
            crate::pending::queues_wf(self.spec_pending()),
            pending_signals(self.spec_pending()) != Set::<Signo>::empty() ==> self.spec_hint(),
    {
        self.pending.lemma_wf();
    }

    /// A manager with nothing pending, no thread and no event.
    pub fn new(actions: SignalActions, default_restorer: usize) -> (r: ProcessSignalManager)
        ensures
            r.wf(),
            r.spec_pending() == no_pending(),
            r.spec_actions() == actions,
            r.spec_default_restorer() == default_restorer,
            r.spec_children() == Seq::<u32>::empty(),
            !r.spec_hint(),
            !r.spec_stop_event(),
            !r.spec_cont_event(),
            r.spec_last_stop() is None,
    {
        let r = ProcessSignalManager {
            pending: PendingSignals::new(),
            actions,
            default_restorer,
            children: Vec::new(),
            possibly_has_signal: false,
            stop_event: false,
            cont_event: false,
            last_stop_signal: None,
        };
        assert(pending_signals(no_pending()) =~= Set::<Signo>::empty());
        r
    }

    /// Registers thread `tid` as the last of the process's threads.
    pub(crate) fn register(&mut self, tid: u32)
        ensures
            final(self).spec_children() == old(self).spec_children().push(tid),
            final(self).spec_pending() == old(self).spec_pending(),
            final(self).spec_actions() == old(self).spec_actions(),
            final(self).spec_default_restorer() == old(self).spec_default_restorer(),
            final(self).spec_hint() == old(self).spec_hint(),
            final(self).spec_stop_event() == old(self).spec_stop_event(),
            final(self).spec_cont_event() == old(self).spec_cont_event(),
            final(self).spec_last_stop() == old(self).spec_last_stop(),
            final(self).wf() == old(self).wf(),
    {
        self.children.push(tid);
    }

    /// Takes out the pending signal that `mask` selects (see
    /// `PendingSignals::dequeue_signal`), and clears the hint once nothing
    /// is pending.
    pub fn dequeue_signal(&mut self, mask: &SignalSet) -> (r: Option<SignalInfo>)
        requires
            old(self).wf(),
        ensures
            final(self).wf(),
            (final(self).spec_pending(), r) == dequeue_model(old(self).spec_pending(), mask@),
            final(self).spec_hint() == (old(self).spec_hint() && pending_signals(
                final(self).spec_pending(),
            ) != Set::<Signo>::empty()),
            final(self).spec_children() == old(self).spec_children(),
            final(self).spec_actions() == old(self).spec_actions(),
            final(self).spec_default_restorer() == old(self).spec_default_restorer(),
            final(self).spec_stop_event() == old(self).spec_stop_event(),
            final(self).spec_cont_event() == old(self).spec_cont_event(),
            final(self).spec_last_stop() == old(self).spec_last_stop(),
    {
        let ghost before = self.pending@;
        proof {
            self.pending.lemma_wf();
            crate::pending::lemma_dequeue(before, mask@);
        }
        let r = self.pending.dequeue_signal(mask);
        if self.pending.set().is_empty() {
            self.possibly_has_signal = false;
        } else {
            proof {
                if pending_signals(before) == Set::<Signo>::empty() {
                    crate::pending::lemma_nonempty_shrink(before, self.pending@);
                }
            }
        }
        r
    }

    /// Whether the process discards `signo` when it is sent.
    pub fn signal_ignored(&self, signo: Signo) -> (r: bool)
        ensures
            r == ignores(self.spec_actions().spec_get(signo), signo),
    {
        if signo.has_side_effect() {
            return false;
        }
        match self.actions.get(signo).disposition {
            SignalDisposition::Ignore => true,
            SignalDisposition::Default => match signo.default_action() {
                DefaultSignalAction::Ignore => true,
                _ => false,
            },
            SignalDisposition::Handler(_) => false,
        }
    }

    /// Whether system calls that `signo` interrupts are restarted.
    pub fn can_restart(&self, signo: Signo) -> (r: bool)
        ensures
            r == self.spec_actions().spec_get(signo).flags.has(SignalActionFlag::RESTART),
    {
        self.actions.get(signo).flags.contains(SignalActionFlag::RESTART)
    }

    /// Sends `sig` to the process. `threads` are the process's threads that
    /// still exist: registered ids without a thread among them are dropped
    /// from the registry. Returns the first registered thread that does not
    /// block the signal, to be woken; `None` when the signal is ignored or
    /// every thread blocks it.
    pub fn send_signal(&mut self, sig: SignalInfo, threads: &[ThreadSignalManager]) -> (r: Option<
        u32,
    >)
        requires
            old(self).wf(),
        ensures
            final(self).wf(),
            final(self).spec_actions() == old(self).spec_actions(),
            final(self).spec_default_restorer() == old(self).spec_default_restorer(),
            final(self).spec_stop_event() == old(self).spec_stop_event(),
            final(self).spec_cont_event() == old(self).spec_cont_event(),
            final(self).spec_last_stop() == old(self).spec_last_stop(),
            ignores(old(self).spec_actions().spec_get(sig.signo), sig.signo) ==> {
                &&& r is None
                &&& final(self).spec_pending() == old(self).spec_pending()
                &&& final(self).spec_children() == old(self).spec_children()
                &&& final(self).spec_hint() == old(self).spec_hint()
            },
            !ignores(old(self).spec_actions().spec_get(sig.signo), sig.signo) ==> {
                &&& r == wake_target(old(self).spec_children(), threads@, sig.signo)
                &&& final(self).spec_pending() == put_model(old(self).spec_pending(), sig)
                &&& final(self).spec_children() == live_children(old(self).spec_children(), threads@)
                &&& final(self).spec_hint() == (old(self).spec_hint() || crate::pending::accepts(
                    old(self).spec_pending(),
                    sig,
                ))
            },
    {
        let signo = sig.signo();
        if self.signal_ignored(signo) {
            return None;
        }
        if self.pending.put_signal(sig) {
            self.possibly_has_signal = true;
        }
        let mut kept: Vec<u32> = Vec::new();
        let mut result: Option<u32> = None;
        let mut k: usize = 0;
        while k < self.children.len()
            invariant
                k <= self.children.len(),
                kept@ == live_children(self.children@.subrange(0, k as int), threads@),
                result == wake_target(self.children@.subrange(0, k as int), threads@, signo),
            decreases self.children.len() - k,
        {
            let tid = self.children[k];
            let mut live = false;
            let mut takes = false;
            let mut i: usize = 0;
            while i < threads.len()
                invariant
                    i <= threads.len(),
                    live == exists|j: int| 0 <= j < i && (#[trigger] threads@[j]).spec_tid() == tid,
                    takes == exists|j: int|
                        0 <= j < i && (#[trigger] threads@[j]).spec_tid() == tid
                            && !threads@[j].spec_blocked()@.contains(signo),
                decreases threads.len() - i,
            {
                if threads[i].tid() == tid {
                    live = true;
                    if !threads[i].signal_blocked(signo) {
                        takes = true;
                    }
                }
                i = i + 1;
            }
            proof {
                let c = self.children@.subrange(0, k as int + 1);
                assert(c.drop_last() =~= self.children@.subrange(0, k as int));
                assert(c.last() == tid);
                assert(live == is_live(threads@, tid));
                assert(takes == takes_signal(threads@, tid, signo));
            }
            if live {
                kept.push(tid);
                if result.is_none() && takes {
                    result = Some(tid);
                }
            }
            k = k + 1;
        }
        proof {
            assert(self.children@.subrange(0, self.children.len() as int) =~= self.children@);
        }
        self.children = kept;
        result
    }

    /// The signals pending for the process.
    pub fn pending(&self) -> (r: SignalSet)
        requires
            self.wf(),
        ensures
            r@ == pending_signals(self.spec_pending()),
    {
        self.pending.set()
    }

    /// Discards every pending instance of `signo`.
    pub fn remove_signal(&mut self, signo: Signo)
        requires
            old(self).wf(),
        ensures
            final(self).wf(),
            final(self).spec_pending() == remove_model(old(self).spec_pending(), signo),
            final(self).spec_hint() == old(self).spec_hint(),
            final(self).spec_children() == old(self).spec_children(),
            final(self).spec_actions() == old(self).spec_actions(),
            final(self).spec_default_restorer() == old(self).spec_default_restorer(),
            final(self).spec_stop_event() == old(self).spec_stop_event(),
            final(self).spec_cont_event() == old(self).spec_cont_event(),
            final(self).spec_last_stop() == old(self).spec_last_stop(),
    {
        self.pending.remove_signal(signo);
        proof {
            if !self.possibly_has_signal {
                assert(pending_signals(self.pending@) =~= Set::<Signo>::empty());
            }
        }
    }

    /// Whether at least one instance of `signo` is pending for the process.
    pub fn has_signal(&self, signo: Signo) -> (r: bool)
        requires
            self.wf(),
        ensures
            r == (self.spec_pending()[signo].len() > 0),
    {
        self.pending.has_signal(signo)
    }

    /// Discards every pending signal whose default action is Stop
    /// (`SIGSTOP`, `SIGTSTP`, `SIGTTIN`, `SIGTTOU`).
    pub fn flush_stop_signals(&mut self)
        requires
            old(self).wf(),
        ensures
            final(self).wf(),
            forall|s: Signo| #[trigger]
                final(self).spec_pending()[s] == if s.spec_default_action()
                    == DefaultSignalAction::Stop {
                    Seq::<SignalInfo>::empty()
                } else {
                    old(self).spec_pending()[s]
                },
            final(self).spec_hint() == old(self).spec_hint(),
            final(self).spec_children() == old(self).spec_children(),
            final(self).spec_actions() == old(self).spec_actions(),
            final(self).spec_default_restorer() == old(self).spec_default_restorer(),
            final(self).spec_stop_event() == old(self).spec_stop_event(),
            final(self).spec_cont_event() == old(self).spec_cont_event(),
            final(self).spec_last_stop() == old(self).spec_last_stop(),
    {
        let ghost start = self.spec_pending();
        let mut n: u32 = 1;
        while n <= 64
            invariant
                1 <= n <= 65,
                self.wf(),
                forall|s: Signo| #[trigger]
                    self.spec_pending()[s] == if s.nr() < n && s.spec_default_action()
                        == DefaultSignalAction::Stop {
                        Seq::<SignalInfo>::empty()
                    } else {
                        start[s]
                    },
                self.spec_hint() == old(self).spec_hint(),
                self.spec_children() == old(self).spec_children(),
                self.spec_actions() == old(self).spec_actions(),
                self.default_restorer == old(self).spec_default_restorer(),
                self.spec_stop_event() == old(self).spec_stop_event(),
                self.spec_cont_event() == old(self).spec_cont_event(),
                self.spec_last_stop() == old(self).spec_last_stop(),
            decreases 65 - n,
        {
            proof {
                lemma_from_nr_nr(n);
            }
            if let Some(s) = Signo::from_number(n) {
                if matches!(s.default_action(), DefaultSignalAction::Stop) {
                    self.remove_signal(s);
                }
                proof {
                    assert forall|t: Signo| #[trigger]
                        self.spec_pending()[t] == if t.nr() < n + 1 && t.spec_default_action()
                            == DefaultSignalAction::Stop {
                            Seq::<SignalInfo>::empty()
                        } else {
                            start[t]
                        } by {
                        crate::signo::lemma_nr_injective(s, t);
                    }
                }
            }
            n = n + 1;
        }
    }

    /// Records that `signal` has stopped the process, as a stop event that
    /// is pending until consumed.
    pub fn set_stop_signal(&mut self, signal: Signo)
        ensures
            final(self).spec_last_stop() == Some(signal),
            final(self).spec_stop_event(),
            final(self).spec_cont_event() == old(self).spec_cont_event(),
            final(self).spec_pending() == old(self).spec_pending(),
            final(self).spec_hint() == old(self).spec_hint(),
            final(self).spec_children() == old(self).spec_children(),
            final(self).spec_actions() == old(self).spec_actions(),
            final(self).spec_default_restorer() == old(self).spec_default_restorer(),
            final(self).wf() == old(self).wf(),
    {
        self.last_stop_signal = Some(signal);
        self.stop_event = true;
    }

    /// Records that the process has continued: forgets the stopping signal
    /// and makes a continue event pending. A stop event stays until consumed.
    pub fn set_cont_signal(&mut self)
        ensures
            final(self).spec_last_stop() is None,
            final(self).spec_cont_event(),
            final(self).spec_stop_event() == old(self).spec_stop_event(),
            final(self).spec_pending() == old(self).spec_pending(),
            final(self).spec_hint() == old(self).spec_hint(),
            final(self).spec_children() == old(self).spec_children(),
            final(self).spec_actions() == old(self).spec_actions(),
            final(self).spec_default_restorer() == old(self).spec_default_restorer(),
            final(self).wf() == old(self).wf(),
    {
        self.last_stop_signal = None;
        self.cont_event = true;
    }

    /// The signal of the stop event that has not been consumed, if any.
    pub fn peek_pending_stop_event(&self) -> (r: Option<Signo>)
        ensures
            r == if self.spec_stop_event() {
                self.spec_last_stop()
            } else {
                None
            },
    {
        if self.stop_event {
            self.last_stop_signal
        } else {
            None
        }
    }

    /// Consumes the stop event.
    pub fn consume_stop_event(&mut self)
        ensures
            !final(self).spec_stop_event(),
            final(self).spec_last_stop() is None,
            final(self).spec_cont_event() == old(self).spec_cont_event(),
            final(self).spec_pending() == old(self).spec_pending(),
            final(self).spec_hint() == old(self).spec_hint(),
            final(self).spec_children() == old(self).spec_children(),
            final(self).spec_actions() == old(self).spec_actions(),
            final(self).spec_default_restorer() == old(self).spec_default_restorer(),
            final(self).wf() == old(self).wf(),
    {
        self.last_stop_signal = None;
        self.stop_event = false;
    }

    /// Whether a continue event has not been consumed.
    pub fn peek_pending_cont_event(&self) -> (r: bool)
        ensures
            r == self.spec_cont_event(),
    {
        self.cont_event
    }

    /// Consumes the continue event.
    pub fn consume_cont_event(&mut self)
        ensures
            !final(self).spec_cont_event(),
            final(self).spec_stop_event() == old(self).spec_stop_event(),
            final(self).spec_last_stop() == old(self).spec_last_stop(),
            final(self).spec_pending() == old(self).spec_pending(),
            final(self).spec_hint() == old(self).spec_hint(),
            final(self).spec_children() == old(self).spec_children(),
            final(self).spec_actions() == old(self).spec_actions(),
            final(self).spec_default_restorer() == old(self).spec_default_restorer(),
            final(self).wf() == old(self).wf(),
    {
        self.cont_event = false;
    }

    /// Puts `action` in the table for `signo`.
    pub fn set_action(&mut self, signo: Signo, action: SignalAction)
        ensures
            final(self).spec_actions().spec_get(signo) == action,
            forall|t: Signo| t != signo ==> final(self).spec_actions().spec_get(t) == old(self).spec_actions().spec_get(t),
            final(self).spec_default_restorer() == old(self).spec_default_restorer(),
            final(self).spec_pending() == old(self).spec_pending(),
            final(self).spec_hint() == old(self).spec_hint(),
            final(self).spec_children() == old(self).spec_children(),
            final(self).spec_stop_event() == old(self).spec_stop_event(),
            final(self).spec_cont_event() == old(self).spec_cont_event(),
            final(self).spec_last_stop() == old(self).spec_last_stop(),
            final(self).wf() == old(self).wf(),
    {
        self.actions.set(signo, action);
    }

    /// The action table.
    pub fn actions(&self) -> (r: &SignalActions)
        ensures
            *r == self.spec_actions(),
    {
        &self.actions
    }

    /// The return trampoline of handlers whose action names none.
    pub fn default_restorer(&self) -> (r: usize)
        ensures
            r == self.spec_default_restorer(),
    {
        self.default_restorer
    }

    /// Whether the hint that a signal may be pending is set.
    pub fn possibly_has_signal(&self) -> (r: bool)
        ensures
            r == self.spec_hint(),
    {
        self.possibly_has_signal
    }
}

} // verus!
