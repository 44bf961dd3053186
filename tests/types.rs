use starry_signal::{DefaultSignalAction, SignalInfo, SignalSet, Signo, SI_KERNEL};

#[test]
fn signalset_add_remove_has_is_empty() {
    let mut set = SignalSet::default();
    assert!(set.is_empty());

    assert!(set.add(Signo::SIGINT));
    assert!(!set.is_empty());
    assert!(set.has(Signo::SIGINT));

    assert!(!set.add(Signo::SIGINT));

    assert!(set.remove(Signo::SIGINT));
    assert!(!set.has(Signo::SIGINT));
    assert!(set.is_empty());

    assert!(!set.remove(Signo::SIGINT));
}

#[test]
fn signalset_dequeue() {
    let mut set = SignalSet::default();
    assert!(set.add(Signo::SIGTERM));
    assert!(set.add(Signo::SIGINT));
    assert!(set.add(Signo::SIGHUP));

    let mut mask = SignalSet::default();
    mask.add(Signo::SIGHUP);
    mask.add(Signo::SIGINT);
    mask.add(Signo::SIGTERM);

    assert_eq!(set.dequeue(&mask).unwrap(), Signo::SIGHUP);
    assert_eq!(set.dequeue(&mask).unwrap(), Signo::SIGINT);
    assert_eq!(set.dequeue(&mask).unwrap(), Signo::SIGTERM);
    assert!(set.dequeue(&mask).is_none());

    assert!(set.add(Signo::SIGHUP));
    assert!(set.add(Signo::SIGINT));

    let mut mask2 = SignalSet::default();
    mask2.add(Signo::SIGINT);

    assert_eq!(set.dequeue(&mask2).unwrap(), Signo::SIGINT);
    assert!(set.has(Signo::SIGHUP));
}

#[test]
fn signalset_bounds() {
    let mut set = SignalSet::default();
    assert!(set.add(Signo::SIGHUP));
    assert!(set.add(Signo::SIGRT32));
    assert!(set.has(Signo::SIGHUP));
    assert!(set.has(Signo::SIGRT32));
    assert!(set.remove(Signo::SIGHUP));
    assert!(set.remove(Signo::SIGRT32));
}

#[test]
fn signalinfo_new_kernel() {
    let si = SignalInfo::new_kernel(Signo::SIGTERM);
    assert_eq!(si.signo(), Signo::SIGTERM);
    assert_eq!(si.code(), 128);
    assert_eq!(si.errno(), 0);
}

#[test]
fn signalinfo_new_user() {
    let si = SignalInfo::new_user(Signo::SIGINT, 9, 9);
    assert_eq!(si.signo(), Signo::SIGINT);
    assert_eq!(si.code(), 9);
    assert_eq!(si.pid(), 9);
    assert_eq!(si.errno(), 0);
}

#[test]
fn signalinfo_set_clone_debug() {
    let mut si = SignalInfo::new_kernel(Signo::SIGTERM);
    si.set_signo(Signo::SIGINT);
    si.set_code(9);
    assert_eq!(si.signo(), Signo::SIGINT);
    assert_eq!(si.code(), 9);

    let si2 = si.clone();
    assert_eq!(si2.signo(), si.signo());
    assert_eq!(si2.code(), si.code());

    let s = format!("{:?}", si);
    assert!(s.contains("signo") && s.contains("code"));
}

#[test]
fn signalinfo_new_has_code_only() {
    let si = SignalInfo::new(Signo::SIGUSR1, SI_KERNEL);
    assert_eq!(si.signo(), Signo::SIGUSR1);
    assert_eq!(si.code(), SI_KERNEL);
    assert_eq!(si.pid(), 0);
}

#[test]
fn signo_numbers_round_trip() {
    assert_eq!(Signo::SIGHUP.number(), 1);
    assert_eq!(Signo::SIGINT.number(), 2);
    assert_eq!(Signo::SIGTERM.number(), 15);
    assert_eq!(Signo::SIGSYS.number(), 31);
    assert_eq!(Signo::SIGRTMIN.number(), 32);
    assert_eq!(Signo::SIGRT1.number(), 33);
    assert_eq!(Signo::SIGRT32.number(), 64);
    for n in 1..=64u32 {
        assert_eq!(Signo::from_number(n).unwrap().number(), n);
    }
    assert!(Signo::from_number(0).is_none());
    assert!(Signo::from_number(65).is_none());
    assert!(!Signo::SIGSYS.is_rt());
    assert!(Signo::SIGRTMIN.is_rt());
}

#[test]
fn signo_default_actions_and_side_effects() {
    assert_eq!(Signo::SIGTERM.default_action(), DefaultSignalAction::Terminate);
    assert_eq!(Signo::SIGSEGV.default_action(), DefaultSignalAction::CoreDump);
    assert_eq!(Signo::SIGCHLD.default_action(), DefaultSignalAction::Ignore);
    assert_eq!(Signo::SIGTSTP.default_action(), DefaultSignalAction::Stop);
    assert_eq!(Signo::SIGCONT.default_action(), DefaultSignalAction::Continue);
    assert_eq!(Signo::SIGRT5.default_action(), DefaultSignalAction::Terminate);
    assert!(Signo::SIGCONT.has_side_effect());
    assert!(Signo::SIGKILL.has_side_effect());
    assert!(!Signo::SIGSTOP.has_side_effect());
}

#[test]
fn signalset_union_complement_bits() {
    let mut a = SignalSet::new();
    a.add(Signo::SIGINT);
    let mut b = SignalSet::new();
    b.add(Signo::SIGRT32);
    let u = a.union(&b);
    assert_eq!(u.to_bits(), (1u64 << 1) | (1u64 << 63));
    let c = u.complement();
    assert!(!c.has(Signo::SIGINT));
    assert!(c.has(Signo::SIGTERM));
    assert_eq!(c.to_bits(), !u.to_bits());
    let mut d = u;
    d.remove_from(&a);
    assert!(!d.has(Signo::SIGINT) && d.has(Signo::SIGRT32));
    d.add_from(&a);
    assert_eq!(d, u);
    assert_eq!(SignalSet::from_bits(0b101).to_bits(), 0b101);
    assert!(SignalSet::from_bits(0b100).has(Signo::SIGQUIT));
    assert_eq!(u.intersection(&a), a);
}
