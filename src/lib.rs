//! Signal delivery for a kernel that serves user-space processes and threads:
//! pending signals per thread and per process, dispositions, signal frames
//! and their restore path.
pub mod api;
mod action;
mod frame;
mod info;
mod pending;
mod process;
mod set;
mod signo;
mod thread;

pub use action::{
    disposition_of, handler_word, is_default_action, k_sigaction, restorer_of, SignalAction,
    SignalActionFlag, SignalActionFlags, SignalActions, SignalDisposition, SignalError, SA_ALL,
    SA_NODEFER, SA_ONSTACK, SA_RESETHAND, SA_RESTART, SA_RESTORER, SA_SIGINFO, SIG_DFL, SIG_IGN,
};
pub use frame::{
    frame_of, mcontext_applied, restored_frame, ucontext_of, GeneralRegisters, MContext,
    SignalFrame, SignalStack, TrapFrame, UContext, UserMemory, SIGINFO_OFFSET, SIGINFO_SIZE,
    SIGNAL_FRAME_ALIGN, SIGNAL_FRAME_SIZE, SS_DISABLE, TRAP_FRAME_OFFSET, TRAP_FRAME_SIZE,
    UCONTEXT_OFFSET, UCONTEXT_SIZE,
};
pub use info::{SignalInfo, SI_KERNEL, SI_USER};
pub use pending::{
    accepts, count_from, dequeue_choice, dequeue_model, drain, lemma_dequeue, lemma_dequeue_count,
    lemma_dequeue_none_iff_disjoint, lemma_dequeue_wf, lemma_drain_one, lemma_nonempty_shrink,
    lemma_put_wf, lemma_realtime_queuing, lemma_remove_wf, lemma_standard_coalescing, no_pending,
    pending_count, pending_signals, put_all, put_model, queues_wf, remove_model, PendingQueues,
    PendingSignals, MAX_QUEUED_RT,
};
pub use process::{
    ignores, is_live, lemma_wake_target, live_children, takes_signal, wake_target,
    ProcessSignalManager,
};
pub use set::{bit_index, lemma_lowest, lowest, lowest_from, SignalSet};
pub use signo::{
    lemma_from_nr_nr, lemma_nr_from_nr, lemma_nr_injective, DefaultSignalAction, Signo,
    SIGNAL_COUNT, SIGRTMIN_NR,
};
pub use thread::{
    default_os_action, discards, frame_address, handler_entered, handler_entry, handler_mask,
    handler_stack_top, lemma_sigreturn_restores, pending_in_either, restorer_for, same_but_actions,
    same_but_blocked, untouched, SignalOSAction, ThreadSignalManager,
};
