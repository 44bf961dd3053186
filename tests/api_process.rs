use starry_signal::{
    ProcessSignalManager, SignalActionFlag, SignalActions, SignalDisposition, SignalInfo, Signo,
    ThreadSignalManager,
};

struct TestEnv {
    proc: ProcessSignalManager,
}

impl TestEnv {
    fn new() -> Self {
        let proc = ProcessSignalManager::new(SignalActions::default(), 0);
        TestEnv { proc }
    }
}

#[test]
fn send_wakes_sets_pending() {
    let mut env = TestEnv::new();
    let thr = ThreadSignalManager::new(9, &mut env.proc);
    let sig = SignalInfo::new_user(Signo::SIGTERM, 0, 100);

    assert_eq!(env.proc.send_signal(sig.clone(), std::slice::from_ref(&thr)), Some(9));
    assert!(env.proc.pending().has(Signo::SIGTERM));
}

#[test]
fn signal_ignore() {
    let mut env = TestEnv::new();
    let mut action = *env.proc.actions().get(Signo::SIGTERM);
    action.disposition = SignalDisposition::Ignore;
    env.proc.set_action(Signo::SIGTERM, action);
    let sig = SignalInfo::new_user(Signo::SIGTERM, 0, 100);

    assert_eq!(env.proc.send_signal(sig, &[]), None);
    assert!(!env.proc.pending().has(Signo::SIGTERM));
}

#[test]
fn can_restart() {
    let mut env = TestEnv::new();
    assert!(!env.proc.can_restart(Signo::SIGTERM));

    let mut action = *env.proc.actions().get(Signo::SIGTERM);
    action.flags.insert(SignalActionFlag::RESTART);
    env.proc.set_action(Signo::SIGTERM, action);
    assert!(env.proc.can_restart(Signo::SIGTERM));
}

#[test]
fn signal_ignored_rules() {
    let mut proc = ProcessSignalManager::new(SignalActions::default(), 0);
    assert!(proc.signal_ignored(Signo::SIGCHLD));
    assert!(proc.signal_ignored(Signo::SIGURG));
    assert!(!proc.signal_ignored(Signo::SIGTERM));
    let mut action = *proc.actions().get(Signo::SIGCONT);
    action.disposition = SignalDisposition::Ignore;
    proc.set_action(Signo::SIGCONT, action);
    assert!(!proc.signal_ignored(Signo::SIGCONT));
    let mut action = *proc.actions().get(Signo::SIGCHLD);
    action.disposition = SignalDisposition::Handler(0x1000);
    proc.set_action(Signo::SIGCHLD, action);
    assert!(!proc.signal_ignored(Signo::SIGCHLD));
}

#[test]
fn ignored_by_default_is_not_enqueued() {
    let mut proc = ProcessSignalManager::new(SignalActions::default(), 0);
    let thr = ThreadSignalManager::new(3, &mut proc);
    let sig = SignalInfo::new_kernel(Signo::SIGCHLD);
    assert_eq!(proc.send_signal(sig, std::slice::from_ref(&thr)), None);
    assert!(!proc.pending().has(Signo::SIGCHLD));
    assert!(!proc.has_signal(Signo::SIGCHLD));
}

#[test]
fn side_effect_signal_is_enqueued_even_if_ignored() {
    let mut proc = ProcessSignalManager::new(SignalActions::default(), 0);
    let thr = ThreadSignalManager::new(3, &mut proc);
    let mut action = *proc.actions().get(Signo::SIGCONT);
    action.disposition = SignalDisposition::Ignore;
    proc.set_action(Signo::SIGCONT, action);
    let sig = SignalInfo::new_kernel(Signo::SIGCONT);
    assert_eq!(proc.send_signal(sig, std::slice::from_ref(&thr)), Some(3));
    assert!(proc.has_signal(Signo::SIGCONT));
}

#[test]
fn wake_target_is_first_unblocking_thread() {
    let mut proc = ProcessSignalManager::new(SignalActions::default(), 0);
    let mut t1 = ThreadSignalManager::new(11, &mut proc);
    let mut t2 = ThreadSignalManager::new(12, &mut proc);
    let t3 = ThreadSignalManager::new(13, &mut proc);
    let t4 = ThreadSignalManager::new(14, &mut proc);
    let mut blocked = starry_signal::SignalSet::new();
    blocked.add(Signo::SIGUSR1);
    t1.set_blocked(blocked);
    t2.set_blocked(blocked);
    let threads = vec![t4, t3, t2, t1];
    assert_eq!(proc.send_signal(SignalInfo::new_kernel(Signo::SIGUSR1), &threads), Some(13));
    assert_eq!(proc.send_signal(SignalInfo::new_kernel(Signo::SIGUSR2), &threads), Some(11));
}

#[test]
fn wake_target_none_when_all_block_and_prunes_dead() {
    let mut proc = ProcessSignalManager::new(SignalActions::default(), 0);
    let mut t1 = ThreadSignalManager::new(1, &mut proc);
    let _gone = ThreadSignalManager::new(2, &mut proc);
    let mut blocked = starry_signal::SignalSet::new();
    blocked.add(Signo::SIGUSR1);
    t1.set_blocked(blocked);
    let threads = vec![t1];
    assert_eq!(proc.send_signal(SignalInfo::new_kernel(Signo::SIGUSR1), &threads), None);
    assert!(proc.has_signal(Signo::SIGUSR1));
    assert_eq!(proc.send_signal(SignalInfo::new_kernel(Signo::SIGUSR2), &[]), None);
    let t2 = ThreadSignalManager::new(2, &mut proc);
    assert_eq!(proc.send_signal(SignalInfo::new_kernel(Signo::SIGUSR2), std::slice::from_ref(&t2)), Some(2));
}

#[test]
fn flush_stop_signals_keeps_others() {
    let mut proc = ProcessSignalManager::new(SignalActions::default(), 0);
    for s in [Signo::SIGSTOP, Signo::SIGTSTP, Signo::SIGTTIN, Signo::SIGTTOU, Signo::SIGTERM] {
        let _ = proc.send_signal(SignalInfo::new_kernel(s), &[]);
    }
    proc.flush_stop_signals();
    assert!(!proc.has_signal(Signo::SIGSTOP));
    assert!(!proc.has_signal(Signo::SIGTSTP));
    assert!(!proc.has_signal(Signo::SIGTTIN));
    assert!(!proc.has_signal(Signo::SIGTTOU));
    assert!(proc.has_signal(Signo::SIGTERM));
    proc.remove_signal(Signo::SIGTERM);
    assert!(proc.pending().is_empty());
}

#[test]
fn stop_and_continue_events() {
    let mut proc = ProcessSignalManager::new(SignalActions::default(), 0);
    assert_eq!(proc.peek_pending_stop_event(), None);
    assert!(!proc.peek_pending_cont_event());
    proc.set_stop_signal(Signo::SIGTSTP);
    assert_eq!(proc.peek_pending_stop_event(), Some(Signo::SIGTSTP));
    assert_eq!(proc.peek_pending_stop_event(), Some(Signo::SIGTSTP));
    proc.set_cont_signal();
    assert!(proc.peek_pending_cont_event());
    assert_eq!(proc.peek_pending_stop_event(), None);
    proc.consume_cont_event();
    assert!(!proc.peek_pending_cont_event());
    proc.set_stop_signal(Signo::SIGSTOP);
    proc.consume_stop_event();
    assert_eq!(proc.peek_pending_stop_event(), None);
}
