use vstd::prelude::*;

use crate::signo::Signo;

verus! {

/// `si_code` of a signal sent by a user process (`kill`).
pub const SI_USER: i32 = 0;

/// `si_code` of a signal sent by the kernel.
pub const SI_KERNEL: i32 = 128;

/// What travels with a signal: the fields of the kernel's `siginfo_t` that
/// this library fills in.
#[derive(Clone, Copy, Debug, PartialEq, Eq, Structural)]
pub struct SignalInfo {
    /// The signal.
    pub signo: Signo,
    /// An error number to report with the signal, 0 for none.
    pub errno: i32,
    /// Where the signal comes from (`SI_USER`, `SI_KERNEL`, a child-status code...).
    pub code: i32,
    /// The process id of the sender, or of the child whose status changed.
    pub pid: u32,
    /// The user id of the sender.
    pub uid: u32,
    /// The exit status or signal of a child.
    pub status: i32,
    /// The faulting address, for a signal raised by a fault.
    pub addr: usize,
}

impl SignalInfo {
    /// A signal `signo` with origin `code` and every other field zero.
    pub fn new(signo: Signo, code: i32) -> (r: SignalInfo)
        ensures
            r == (SignalInfo { signo, errno: 0, code, pid: 0, uid: 0, status: 0, addr: 0 }),
    {
        SignalInfo { signo, errno: 0, code, pid: 0, uid: 0, status: 0, addr: 0 }
    }

    /// A signal `signo` raised by the kernel itself.
    pub fn new_kernel(signo: Signo) -> (r: SignalInfo)
        ensures
            r == (SignalInfo { signo, errno: 0, code: SI_KERNEL, pid: 0, uid: 0, status: 0, addr: 0 }),
    {
        SignalInfo::new(signo, SI_KERNEL)
    }

    /// A signal `signo` with origin `code`, sent by process `pid`.
    pub fn new_user(signo: Signo, code: i32, pid: u32) -> (r: SignalInfo)
        ensures
            r == (SignalInfo { signo, errno: 0, code, pid, uid: 0, status: 0, addr: 0 }),
    {
        SignalInfo { signo, errno: 0, code, pid, uid: 0, status: 0, addr: 0 }
    }

    /// The signal.
    pub fn signo(&self) -> (r: Signo)
        ensures
            r == self.signo,
    {
        self.signo
    }

    /// The origin code.
    pub fn code(&self) -> (r: i32)
        ensures
            r == self.code,
    {
        self.code
    }

    /// The error number.
    pub fn errno(&self) -> (r: i32)
        ensures
            r == self.errno,
    {
        self.errno
    }

    /// The sender's process id.
    pub fn pid(&self) -> (r: u32)
        ensures
            r == self.pid,
    {
        self.pid
    }

    /// Replaces the signal.
    pub fn set_signo(&mut self, signo: Signo)
        ensures
            *final(self) == (SignalInfo { signo, ..*old(self) }),
    {
        self.signo = signo;
    }

    /// Replaces the origin code.
    pub fn set_code(&mut self, code: i32)
        ensures
            *final(self) == (SignalInfo { code, ..*old(self) }),
    {
        self.code = code;
    }
}

} // verus!
