use starry_signal::{PendingSignals, SignalInfo, SignalSet, Signo, MAX_QUEUED_RT};

#[test]
fn standard_signal() {
    let mut ps = PendingSignals::default();
    let sig1 = SignalInfo::new_user(Signo::SIGINT, 9, 9);
    assert!(ps.put_signal(sig1.clone()));
    assert!(!ps.put_signal(sig1));
    let sig2 = SignalInfo::new_user(Signo::SIGTERM, 9, 9);
    let sig3 = SignalInfo::new_user(Signo::SIGHUP, 9, 9);

    let mut mask = SignalSet::default();
    mask.add(Signo::SIGHUP);
    mask.add(Signo::SIGTERM);
    mask.add(Signo::SIGINT);

    assert!(ps.put_signal(sig3));
    assert!(ps.put_signal(sig2));
    assert_eq!(ps.dequeue_signal(&mask).unwrap().signo(), Signo::SIGHUP);
    assert_eq!(ps.dequeue_signal(&mask).unwrap().signo(), Signo::SIGINT);
    assert_eq!(ps.dequeue_signal(&mask).unwrap().signo(), Signo::SIGTERM);
    assert!(ps.dequeue_signal(&mask).is_none());

    let sig4 = SignalInfo::new_user(Signo::SIGTERM, 9, 9);
    let sig5 = SignalInfo::new_user(Signo::SIGQUIT, 9, 9);
    assert!(ps.put_signal(sig4));
    assert!(ps.put_signal(sig5));
    assert_eq!(ps.dequeue_signal(&mask).unwrap().signo(), Signo::SIGTERM);
    assert!(ps.set().has(Signo::SIGQUIT));
}

#[test]
fn realtime_signal() {
    let mut ps = PendingSignals::default();
    let sig1 = SignalInfo::new_user(Signo::SIGRT1, 9, 9);
    let sig2 = SignalInfo::new_user(Signo::SIGRT3, 9, 9);
    let sig3 = SignalInfo::new_user(Signo::SIGRTMIN, 9, 9);
    let sig4 = SignalInfo::new_user(Signo::SIGRTMIN, 9, 9);

    let mut mask = SignalSet::default();
    mask.add(Signo::SIGRT3);
    mask.add(Signo::SIGRT1);
    mask.add(Signo::SIGRTMIN);

    assert!(ps.put_signal(sig1));
    assert!(ps.put_signal(sig2));
    assert!(ps.put_signal(sig3));
    assert!(ps.put_signal(sig4));
    assert_eq!(ps.dequeue_signal(&mask).unwrap().signo(), Signo::SIGRTMIN);
    assert!(ps.set().has(Signo::SIGRTMIN));
    assert_eq!(ps.dequeue_signal(&mask).unwrap().signo(), Signo::SIGRTMIN);
    assert_eq!(ps.dequeue_signal(&mask).unwrap().signo(), Signo::SIGRT1);
    assert_eq!(ps.dequeue_signal(&mask).unwrap().signo(), Signo::SIGRT3);
    assert!(ps.dequeue_signal(&mask).is_none());

    let sig5 = SignalInfo::new_user(Signo::SIGRT3, 9, 9);
    let sig6 = SignalInfo::new_user(Signo::SIGRT2, 9, 9);
    assert!(ps.put_signal(sig5));
    assert!(ps.put_signal(sig6));
    assert_eq!(ps.dequeue_signal(&mask).unwrap().signo(), Signo::SIGRT3);
    assert!(ps.set().has(Signo::SIGRT2));
}

#[test]
fn mixed_signal() {
    let mut ps = PendingSignals::default();
    let sig1 = SignalInfo::new_user(Signo::SIGINT, 9, 9);
    let sig2 = SignalInfo::new_user(Signo::SIGTERM, 9, 9);
    let sig3 = SignalInfo::new_user(Signo::SIGRTMIN, 9, 9);
    let sig4 = SignalInfo::new_user(Signo::SIGRTMIN, 9, 9);

    let mut mask = SignalSet::default();
    mask.add(Signo::SIGINT);
    mask.add(Signo::SIGTERM);
    mask.add(Signo::SIGRTMIN);

    assert!(ps.put_signal(sig1));
    assert!(ps.put_signal(sig2));
    assert!(ps.put_signal(sig3));
    assert!(ps.put_signal(sig4));

    assert_eq!(ps.dequeue_signal(&mask).unwrap().signo(), Signo::SIGINT);
    assert_eq!(ps.dequeue_signal(&mask).unwrap().signo(), Signo::SIGTERM);

    assert_eq!(ps.dequeue_signal(&mask).unwrap().signo(), Signo::SIGRTMIN);
    assert!(ps.set().has(Signo::SIGRTMIN));
    assert_eq!(ps.dequeue_signal(&mask).unwrap().signo(), Signo::SIGRTMIN);
    assert!(ps.dequeue_signal(&mask).is_none());
}

#[test]
fn dequeue_none_exactly_when_mask_misses_pending() {
    let mut ps = PendingSignals::new();
    let empty = SignalSet::new();
    assert!(ps.dequeue_signal(&SignalSet::new().complement()).is_none());
    assert!(ps.put_signal(SignalInfo::new_user(Signo::SIGUSR1, 0, 1)));
    assert!(ps.dequeue_signal(&empty).is_none());
    let mut other = SignalSet::new();
    other.add(Signo::SIGUSR2);
    assert!(ps.dequeue_signal(&other).is_none());
    assert!(ps.has_signal(Signo::SIGUSR1));
    other.add(Signo::SIGUSR1);
    assert_eq!(ps.dequeue_signal(&other).unwrap().signo(), Signo::SIGUSR1);
    assert!(ps.set().is_empty());
}

#[test]
fn standard_coalescing_keeps_first() {
    let mut ps = PendingSignals::new();
    assert!(ps.put_signal(SignalInfo::new_user(Signo::SIGUSR1, 0, 1)));
    assert!(!ps.put_signal(SignalInfo::new_user(Signo::SIGUSR1, 0, 2)));
    assert!(!ps.put_signal(SignalInfo::new_user(Signo::SIGUSR1, 0, 3)));
    let mut mask = SignalSet::new();
    mask.add(Signo::SIGUSR1);
    assert_eq!(ps.dequeue_signal(&mask).unwrap().pid(), 1);
    assert!(ps.dequeue_signal(&mask).is_none());
    assert!(ps.dequeue_signal(&mask).is_none());
}

#[test]
fn realtime_fifo_then_bit_clears() {
    let mut ps = PendingSignals::new();
    for pid in 1..=5u32 {
        assert!(ps.put_signal(SignalInfo::new_user(Signo::SIGRT7, 0, pid)));
    }
    let mut mask = SignalSet::new();
    mask.add(Signo::SIGRT7);
    for pid in 1..=5u32 {
        assert!(ps.has_signal(Signo::SIGRT7));
        assert_eq!(ps.dequeue_signal(&mask).unwrap().pid(), pid);
    }
    assert!(!ps.has_signal(Signo::SIGRT7));
    assert!(ps.dequeue_signal(&mask).is_none());
}

#[test]
fn realtime_queue_limit() {
    let mut ps = PendingSignals::new();
    for _ in 0..MAX_QUEUED_RT {
        assert!(ps.put_signal(SignalInfo::new_user(Signo::SIGRTMIN, 0, 1)));
    }
    assert!(!ps.put_signal(SignalInfo::new_user(Signo::SIGRTMIN, 0, 2)));
    assert!(ps.has_signal(Signo::SIGRTMIN));
}

#[test]
fn remove_signal_discards_all_instances() {
    let mut ps = PendingSignals::new();
    ps.put_signal(SignalInfo::new_user(Signo::SIGRT2, 0, 1));
    ps.put_signal(SignalInfo::new_user(Signo::SIGRT2, 0, 2));
    ps.put_signal(SignalInfo::new_user(Signo::SIGHUP, 0, 3));
    ps.remove_signal(Signo::SIGRT2);
    assert!(!ps.has_signal(Signo::SIGRT2));
    assert!(ps.has_signal(Signo::SIGHUP));
    ps.remove_signal(Signo::SIGTERM);
    assert!(ps.has_signal(Signo::SIGHUP));
}
