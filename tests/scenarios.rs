use std::collections::HashMap;

use starry_signal::{
    ProcessSignalManager, SignalAction, SignalActions, SignalDisposition, SignalFrame, SignalInfo,
    SignalOSAction, SignalSet, Signo, ThreadSignalManager, TrapFrame, UserMemory,
    SIGNAL_FRAME_SIZE,
};

const POOL_BASE: usize = 0x2000_0000;
const POOL_SIZE: usize = 0x0100_0000;

/// User memory backed by a map of frames over a 16 MiB range.
struct Pool {
    frames: HashMap<usize, SignalFrame>,
}

impl UserMemory for Pool {
    fn write_frame(&mut self, addr: usize, frame: &SignalFrame) -> bool {
        if addr < POOL_BASE || addr + SIGNAL_FRAME_SIZE > POOL_BASE + POOL_SIZE {
            return false;
        }
        self.frames.insert(addr, *frame);
        true
    }

    fn read_frame(&mut self, addr: usize) -> Option<SignalFrame> {
        self.frames.get(&addr).copied()
    }
}

fn handler_action(handler: usize) -> SignalAction {
    let mut action = SignalAction::new();
    action.disposition = SignalDisposition::Handler(handler);
    action
}

#[test]
fn scenario_send_then_dequeue() {
    let mut proc = ProcessSignalManager::new(SignalActions::default(), 0);
    let thr = ThreadSignalManager::new(9, &mut proc);
    let r = proc.send_signal(SignalInfo::new(Signo::SIGTERM, 0), std::slice::from_ref(&thr));
    assert_eq!(r, Some(9));
    assert!(proc.pending().has(Signo::SIGTERM));
}

#[test]
fn scenario_ignore_disposition_blocks_enqueue() {
    let mut proc = ProcessSignalManager::new(SignalActions::default(), 0);
    let mut action = SignalAction::new();
    action.disposition = SignalDisposition::Ignore;
    proc.set_action(Signo::SIGTERM, action);
    assert_eq!(proc.send_signal(SignalInfo::new(Signo::SIGTERM, 0), &[]), None);
    assert!(!proc.pending().has(Signo::SIGTERM));
}

#[test]
fn scenario_block_hides_but_preserves() {
    let mut proc = ProcessSignalManager::new(SignalActions::default(), 0);
    let mut thr = ThreadSignalManager::new(7, &mut proc);
    let mut mem = Pool { frames: HashMap::new() };
    let mut blocked = SignalSet::new();
    blocked.add(Signo::SIGINT);
    thr.set_blocked(blocked);
    assert!(!thr.send_signal(&proc, SignalInfo::new(Signo::SIGINT, 0)));
    assert!(thr.pending(&proc).has(Signo::SIGINT));
    thr.set_blocked(SignalSet::new());
    let mut tf = TrapFrame::new();
    tf.set_sp(POOL_BASE + POOL_SIZE);
    let (si, _) = thr.check_signals(&mut proc, &mut tf, None, &mut mem).unwrap();
    assert_eq!(si.signo(), Signo::SIGINT);
}

#[test]
fn scenario_handler_rewrites_then_sigreturn_restores() {
    let mut proc = ProcessSignalManager::new(SignalActions::default(), 0);
    let mut thr = ThreadSignalManager::new(7, &mut proc);
    let mut mem = Pool { frames: HashMap::new() };
    let action = handler_action(0x40_1000);
    proc.set_action(Signo::SIGTERM, action);
    let initial_sp = POOL_BASE + POOL_SIZE;
    let mut tf = TrapFrame::new();
    tf.set_sp(initial_sp);
    tf.set_ip(0x219);
    let original = tf;
    let blocked = thr.blocked();
    let sig = SignalInfo::new_kernel(Signo::SIGTERM);
    let r = thr.handle_signal(&mut proc, &mut tf, blocked, &sig, &action, &mut mem);
    assert_eq!(r, Some(SignalOSAction::Handler));
    assert_eq!(tf.ip(), 0x40_1000);
    assert!(tf.sp() < initial_sp);
    assert_eq!(tf.arg0(), Signo::SIGTERM.number() as usize);
    assert!(thr.signal_blocked(Signo::SIGTERM));

    assert!(thr.restore(&mut tf, &mut mem));
    assert_eq!(tf.ip(), original.ip());
    assert_eq!(tf.sp(), original.sp());
    assert!(!thr.signal_blocked(Signo::SIGTERM));
}

#[test]
fn scenario_thread_then_process_pending() {
    let mut proc = ProcessSignalManager::new(SignalActions::default(), 0);
    let mut thr = ThreadSignalManager::new(4, &mut proc);
    assert!(thr.send_signal(&proc, SignalInfo::new(Signo::SIGINT, 0)));
    assert_eq!(proc.send_signal(SignalInfo::new(Signo::SIGTERM, 0), std::slice::from_ref(&thr)), Some(4));
    let all = SignalSet::new().complement();
    assert_eq!(thr.dequeue_signal(&mut proc, &all).unwrap().signo(), Signo::SIGINT);
    assert_eq!(thr.dequeue_signal(&mut proc, &all).unwrap().signo(), Signo::SIGTERM);
    assert!(thr.dequeue_signal(&mut proc, &all).is_none());
}

#[test]
fn blocked_send_reports_no_wake_and_stays_pending() {
    let mut proc = ProcessSignalManager::new(SignalActions::default(), 0);
    let mut thr = ThreadSignalManager::new(1, &mut proc);
    let mut blocked = SignalSet::new();
    blocked.add(Signo::SIGRT4);
    blocked.add(Signo::SIGUSR2);
    thr.set_blocked(blocked);
    for _ in 0..3 {
        assert!(!thr.send_signal(&proc, SignalInfo::new_kernel(Signo::SIGRT4)));
        assert!(!thr.send_signal(&proc, SignalInfo::new_kernel(Signo::SIGUSR2)));
    }
    assert!(thr.pending(&proc).has(Signo::SIGRT4));
    assert!(thr.pending(&proc).has(Signo::SIGUSR2));
}

#[test]
fn handler_blocks_action_mask_and_signal() {
    let mut proc = ProcessSignalManager::new(SignalActions::default(), 0);
    let mut thr = ThreadSignalManager::new(1, &mut proc);
    let mut mem = Pool { frames: HashMap::new() };
    let mut action = handler_action(0x5000);
    action.mask.add(Signo::SIGQUIT);
    action.mask.add(Signo::SIGRT9);
    let mut before = SignalSet::new();
    before.add(Signo::SIGHUP);
    thr.set_blocked(before);
    let mut tf = TrapFrame::new();
    tf.set_sp(POOL_BASE + POOL_SIZE);
    let sig = SignalInfo::new_kernel(Signo::SIGALRM);
    let r = thr.handle_signal(&mut proc, &mut tf, before, &sig, &action, &mut mem);
    assert_eq!(r, Some(SignalOSAction::Handler));
    for s in [Signo::SIGHUP, Signo::SIGQUIT, Signo::SIGRT9, Signo::SIGALRM] {
        assert!(thr.signal_blocked(s));
    }
    assert!(!thr.signal_blocked(Signo::SIGTERM));
}

#[test]
fn sigreturn_gives_back_whole_trap_frame() {
    let mut proc = ProcessSignalManager::new(SignalActions::default(), 0x9000);
    let mut thr = ThreadSignalManager::new(1, &mut proc);
    let mut mem = Pool { frames: HashMap::new() };
    let mut tf = TrapFrame::new();
    tf.regs.a0 = 11;
    tf.regs.a1 = 12;
    tf.regs.a2 = 13;
    tf.regs.ra = 14;
    tf.regs.s5 = 15;
    tf.regs.t6 = 16;
    tf.sstatus = 0x22;
    tf.set_sp(POOL_BASE + 0x8000 + 7);
    tf.set_ip(0x7777);
    let original = tf;
    let mut mask = SignalSet::new();
    mask.add(Signo::SIGPIPE);
    thr.set_blocked(mask);
    let sig = SignalInfo::new_user(Signo::SIGUSR1, 0, 3);
    let r = thr.handle_signal(&mut proc, &mut tf, mask, &sig, &handler_action(0x6000), &mut mem);
    assert_eq!(r, Some(SignalOSAction::Handler));
    assert_ne!(tf, original);
    assert!(thr.restore(&mut tf, &mut mem));
    assert_eq!(tf, original);
    assert_eq!(thr.blocked(), mask);
}
