use linux_raw_sys::general::{
    SA_NODEFER, SA_ONSTACK, SA_RESETHAND, SA_RESTART, SA_RESTORER, SA_SIGINFO, SS_DISABLE,
};
use starry_signal::{
    k_sigaction, SignalAction, SignalActionFlag, SignalActionFlags, SignalActions,
    SignalDisposition, SignalError, SignalSet, Signo,
};

fn test_handler(_: i32) {}

#[test]
fn flags_bits() {
    let mut flags = SignalActionFlags::default();
    flags.insert(SignalActionFlag::SIGINFO);
    assert!(flags.contains(SignalActionFlag::SIGINFO));

    flags.insert(SignalActionFlag::ONSTACK);
    assert!(flags.contains(SignalActionFlag::ONSTACK));

    flags.remove(SignalActionFlag::SIGINFO);
    assert!(!flags.contains(SignalActionFlag::SIGINFO));
    assert!(flags.contains(SignalActionFlag::ONSTACK));

    let bits = flags.bits();
    assert_ne!(bits, 0);
    assert!(!flags.is_empty());
}

fn flags_of(list: &[SignalActionFlag]) -> SignalActionFlags {
    let mut f = SignalActionFlags::empty();
    for flag in list {
        f.insert(*flag);
    }
    f
}

#[test]
fn convert() {
    let flag_disposition = vec![
        (flags_of(&[]), SignalDisposition::Default),
        (
            flags_of(&[SignalActionFlag::RESTART, SignalActionFlag::ONSTACK]),
            SignalDisposition::Ignore,
        ),
        (
            flags_of(&[SignalActionFlag::SIGINFO, SignalActionFlag::NODEFER]),
            SignalDisposition::Handler(test_handler as usize),
        ),
    ];

    for (flags, disposition) in flag_disposition {
        let action = SignalAction {
            flags,
            mask: {
                let mut m = SignalSet::default();
                m.add(Signo::SIGINT);
                m.add(Signo::SIGRT32);
                m
            },
            disposition: disposition.clone(),
            restorer: None,
        };
        let mut ks = k_sigaction { handler: 0, flags: 0, restorer: 0, mask: SignalSet::new() };
        action.clone().to_ctype(&mut ks);
        let action2 = SignalAction::from_ctype(&ks, 0).unwrap();

        assert_eq!(action.flags.bits(), action2.flags.bits());
        assert_eq!(action.mask.has(Signo::SIGINT), action2.mask.has(Signo::SIGINT));
        assert_eq!(action.mask.has(Signo::SIGRT32), action2.mask.has(Signo::SIGRT32));
        match (&action.disposition, &action2.disposition) {
            (SignalDisposition::Default, SignalDisposition::Default) => {}
            (SignalDisposition::Ignore, SignalDisposition::Ignore) => {}
            (SignalDisposition::Handler(h1), SignalDisposition::Handler(h2)) => {
                let p1 = *h1;
                let p2 = *h2;
                assert_ne!(p1, 0);
                assert_eq!(p1, p2);
            }
            _ => panic!(
                "Unexpected disposition combination: {:?} -> {:?}",
                action.disposition, action2.disposition
            ),
        }
    }
}

#[test]
fn flag_values_match_kernel_abi() {
    assert_eq!(SignalActionFlag::SIGINFO.bit(), SA_SIGINFO as u64);
    assert_eq!(SignalActionFlag::ONSTACK.bit(), SA_ONSTACK as u64);
    assert_eq!(SignalActionFlag::RESTART.bit(), SA_RESTART as u64);
    assert_eq!(SignalActionFlag::NODEFER.bit(), SA_NODEFER as u64);
    assert_eq!(SignalActionFlag::RESETHAND.bit(), SA_RESETHAND as u64);
    assert_eq!(SignalActionFlag::RESTORER.bit(), SA_RESTORER as u64);
    assert_eq!(starry_signal::SS_DISABLE, SS_DISABLE);
}

#[test]
fn from_ctype_rejects_unknown_flags() {
    let ks = k_sigaction { handler: 0, flags: 0x1, restorer: 0, mask: SignalSet::new() };
    assert_eq!(SignalAction::from_ctype(&ks, 0x5000).unwrap_err(), SignalError::InvalidFlags);
    assert!(SignalActionFlags::from_bits(0x1).is_none());
    assert!(SignalActionFlags::from_bits(0x4 | 0x1000_0000).is_some());
}

#[test]
fn from_ctype_handler_words_and_restorer() {
    let mut ks = k_sigaction { handler: 1, flags: 0, restorer: 0x7777, mask: SignalSet::new() };
    let a = SignalAction::from_ctype(&ks, 0x5000).unwrap();
    assert_eq!(a.disposition, SignalDisposition::Ignore);
    assert_eq!(a.restorer, Some(0x5000));

    ks.handler = 0x4242;
    ks.flags = 0x0400_0000;
    let a = SignalAction::from_ctype(&ks, 0x5000).unwrap();
    assert_eq!(a.disposition, SignalDisposition::Handler(0x4242));
    assert_eq!(a.restorer, Some(0x7777));

    ks.restorer = 0;
    let a = SignalAction::from_ctype(&ks, 0x5000).unwrap();
    assert_eq!(a.restorer, Some(0x5000));

    ks.handler = 0;
    let a = SignalAction::from_ctype(&ks, 0x5000).unwrap();
    assert_eq!(a.disposition, SignalDisposition::Default);
}

#[test]
fn to_ctype_writes_sentinels() {
    let mut ks = k_sigaction { handler: 99, flags: 99, restorer: 99, mask: SignalSet::new() };
    let mut a = SignalAction::new();
    a.to_ctype(&mut ks);
    assert_eq!((ks.handler, ks.flags, ks.restorer), (0, 0, 0));
    a.disposition = SignalDisposition::Ignore;
    a.restorer = Some(0x1234);
    a.to_ctype(&mut ks);
    assert_eq!((ks.handler, ks.restorer), (1, 0x1234));
}

#[test]
fn action_table_get_set() {
    let mut table = SignalActions::default();
    assert_eq!(table.get(Signo::SIGRT32).disposition, SignalDisposition::Default);
    let mut a = SignalAction::new();
    a.disposition = SignalDisposition::Ignore;
    table.set(Signo::SIGRT32, a);
    assert_eq!(table.get(Signo::SIGRT32).disposition, SignalDisposition::Ignore);
    assert_eq!(table.get(Signo::SIGRT31).disposition, SignalDisposition::Default);
    assert_eq!(table.get(Signo::SIGHUP).disposition, SignalDisposition::Default);
}
