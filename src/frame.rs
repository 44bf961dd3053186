use vstd::prelude::*;

use crate::info::SignalInfo;
use crate::set::SignalSet;

verus! {

/// `ss_flags` bit of a disabled alternate stack.
pub const SS_DISABLE: u32 = 2;

/// Bytes of a `ucontext` in a signal frame.
pub const UCONTEXT_SIZE: usize = 960;

/// Bytes of a `siginfo_t`.
pub const SIGINFO_SIZE: usize = 128;

/// Bytes of a saved trap frame: 31 registers, the pc and the status word.
pub const TRAP_FRAME_SIZE: usize = 264;

/// Offset of the `ucontext` in a signal frame.
pub const UCONTEXT_OFFSET: usize = 0;

/// Offset of the `siginfo_t` in a signal frame.
pub const SIGINFO_OFFSET: usize = 960;

/// Offset of the saved trap frame in a signal frame.
pub const TRAP_FRAME_OFFSET: usize = 1088;

/// Bytes of a signal frame.
pub const SIGNAL_FRAME_SIZE: usize = 1352;

/// Alignment of a signal frame on the user stack.
pub const SIGNAL_FRAME_ALIGN: usize = 16;

/// The general-purpose registers `x1` to `x31`.
#[derive(Clone, Copy, Debug, PartialEq, Eq, Structural)]
pub struct GeneralRegisters {
    pub ra: usize,
    pub sp: usize,
    pub gp: usize,
    pub tp: usize,
    pub t0: usize,
    pub t1: usize,
    pub t2: usize,
    pub s0: usize,
    pub s1: usize,
    pub a0: usize,
    pub a1: usize,
    pub a2: usize,
    pub a3: usize,
    pub a4: usize,
    pub a5: usize,
    pub a6: usize,
    pub a7: usize,
    pub s2: usize,
    pub s3: usize,
    pub s4: usize,
    pub s5: usize,
    pub s6: usize,
    pub s7: usize,
    pub s8: usize,
    pub s9: usize,
    pub s10: usize,
    pub s11: usize,
    pub t3: usize,
    pub t4: usize,
    pub t5: usize,
    pub t6: usize,
}

/// The user registers saved on a trap, as the CPU layer hands them over.
#[derive(Clone, Copy, Debug, PartialEq, Eq, Structural)]
pub struct TrapFrame {
    pub regs: GeneralRegisters,
    /// The user program counter.
    pub sepc: usize,
    /// The status word; not a user register.
    pub sstatus: usize,
}

impl TrapFrame {
    /// A frame with every register zero.
    pub fn new() -> (r: TrapFrame)
        ensures
            r.sepc == 0,
            r.sstatus == 0,
            r.regs == (GeneralRegisters {
                ra: 0,
                sp: 0,
                gp: 0,
                tp: 0,
                t0: 0,
                t1: 0,
                t2: 0,
                s0: 0,
                s1: 0,
                a0: 0,
                a1: 0,
                a2: 0,
                a3: 0,
                a4: 0,
                a5: 0,
                a6: 0,
                a7: 0,
                s2: 0,
                s3: 0,
                s4: 0,
                s5: 0,
                s6: 0,
                s7: 0,
                s8: 0,
                s9: 0,
                s10: 0,
                s11: 0,
                t3: 0,
                t4: 0,
                t5: 0,
                t6: 0,
            }),
    {
        TrapFrame {
            regs: GeneralRegisters {
                ra: 0,
                sp: 0,
                gp: 0,
                tp: 0,
                t0: 0,
                t1: 0,
                t2: 0,
                s0: 0,
                s1: 0,
                a0: 0,
                a1: 0,
                a2: 0,
                a3: 0,
                a4: 0,
                a5: 0,
                a6: 0,
                a7: 0,
                s2: 0,
                s3: 0,
                s4: 0,
                s5: 0,
                s6: 0,
                s7: 0,
                s8: 0,
                s9: 0,
                s10: 0,
                s11: 0,
                t3: 0,
                t4: 0,
                t5: 0,
                t6: 0,
            },
            sepc: 0,
            sstatus: 0,
        }
    }

    /// The instruction pointer.
    pub fn ip(&self) -> (r: usize)
        ensures
            r == self.sepc,
    {
        self.sepc
    }

    /// The stack pointer.
    pub fn sp(&self) -> (r: usize)
        ensures
            r == self.regs.sp,
    {
        self.regs.sp
    }

    /// The first argument register.
    pub fn arg0(&self) -> (r: usize)
        ensures
            r == self.regs.a0,
    {
        self.regs.a0
    }

    /// The second argument register.
    pub fn arg1(&self) -> (r: usize)
        ensures
            r == self.regs.a1,
    {
        self.regs.a1
    }

    /// The third argument register.
    pub fn arg2(&self) -> (r: usize)
        ensures
            r == self.regs.a2,
    {
        self.regs.a2
    }

    /// The return address register.
    pub fn ra(&self) -> (r: usize)
        ensures
            r == self.regs.ra,
    {
        self.regs.ra
    }

    /// Sets the instruction pointer.
    pub fn set_ip(&mut self, ip: usize)
        ensures
            *final(self) == (TrapFrame { sepc: ip, ..*old(self) }),
    {
        self.sepc = ip;
    }

    /// Sets the stack pointer.
    pub fn set_sp(&mut self, sp: usize)
        ensures
            *final(self) == (TrapFrame { regs: GeneralRegisters { sp, ..old(self).regs }, ..*old(self) }),
    {
        self.regs.sp = sp;
    }
}

/// An alternate signal stack (`stack_t`).
#[derive(Clone, Copy, Debug, PartialEq, Eq, Structural)]
pub struct SignalStack {
    pub sp: usize,
    pub flags: u32,
    pub size: usize,
}

impl SignalStack {
    /// A disabled stack.
    pub fn new() -> (r: SignalStack)
        ensures
            r == (SignalStack { sp: 0, flags: SS_DISABLE, size: 0 }),
    {
        SignalStack { sp: 0, flags: SS_DISABLE, size: 0 }
    }

    /// Whether the stack is disabled.
    pub open spec fn is_disabled(self) -> bool {
        self.flags & SS_DISABLE != 0
    }

    /// Whether the stack is disabled.
    pub fn disabled(&self) -> (r: bool)
        ensures
            r == self.is_disabled(),
    {
        self.flags & SS_DISABLE != 0
    }
}

impl Default for SignalStack {
    fn default() -> (r: SignalStack)
        ensures
            r == (SignalStack { sp: 0, flags: SS_DISABLE, size: 0 }),
    {
        SignalStack::new()
    }
}

/// The registers as a signal handler sees them (`mcontext_t`).
#[derive(Clone, Copy, Debug, PartialEq, Eq, Structural)]
pub struct MContext {
    pub pc: usize,
    pub regs: GeneralRegisters,
}

/// The trap frame `tf` with its registers and pc taken from `m`.
pub open spec fn mcontext_applied(m: MContext, tf: TrapFrame) -> TrapFrame {
    TrapFrame { regs: m.regs, sepc: m.pc, ..tf }
}

impl MContext {
    /// The registers and pc of `tf`.
    pub fn new(tf: &TrapFrame) -> (r: MContext)
        ensures
            r == (MContext { pc: tf.sepc, regs: tf.regs }),
    {
        MContext { pc: tf.sepc, regs: tf.regs }
    }

    /// Writes the registers and pc back into `tf`; its other fields stay.
    pub fn restore(&self, tf: &mut TrapFrame)
        ensures
            *final(tf) == mcontext_applied(*self, *old(tf)),
    {
        tf.sepc = self.pc;
        tf.regs = self.regs;
    }
}

/// The user context saved in a signal frame (`ucontext_t`).
#[derive(Clone, Copy, Debug, PartialEq, Eq, Structural)]
pub struct UContext {
    pub flags: usize,
    pub link: usize,
    pub stack: SignalStack,
    /// The blocked mask to return to.
    pub sigmask: SignalSet,
    pub mcontext: MContext,
}

/// The user context saved for trap frame `tf` and blocked mask `sigmask`.
pub open spec fn ucontext_of(tf: TrapFrame, sigmask: SignalSet) -> UContext {
    UContext {
        flags: 0,
        link: 0,
        stack: SignalStack { sp: 0, flags: SS_DISABLE, size: 0 },
        sigmask,
        mcontext: MContext { pc: tf.sepc, regs: tf.regs },
    }
}

impl UContext {
    /// The context of `tf` with blocked mask `sigmask`.
    pub fn new(tf: &TrapFrame, sigmask: SignalSet) -> (r: UContext)
        ensures
            r == ucontext_of(*tf, sigmask),
    {
        UContext {
            flags: 0,
            link: 0,
            stack: SignalStack::new(),
            sigmask,
            mcontext: MContext::new(tf),
        }
    }
}

/// What a handler's stack receives: the user context, the signal's info,
/// and the interrupted trap frame.
#[derive(Clone, Copy, Debug)]
pub struct SignalFrame {
    pub ucontext: UContext,
    pub siginfo: SignalInfo,
    pub tf: TrapFrame,
}

/// The frame written for a handler entered from `tf`, to return to the
/// blocked mask `restore_blocked`.
pub open spec fn frame_of(tf: TrapFrame, restore_blocked: SignalSet, sig: SignalInfo) -> SignalFrame {
    SignalFrame { ucontext: ucontext_of(tf, restore_blocked), siginfo: sig, tf }
}

/// The trap frame that sigreturn rebuilds from `frame`: the saved trap
/// frame, with the registers of the user context over it.
pub open spec fn restored_frame(frame: SignalFrame) -> TrapFrame {
    mcontext_applied(frame.ucontext.mcontext, frame.tf)
}

impl SignalFrame {
    /// The frame for a handler entered from `tf` with `sig`, to return to
    /// the blocked mask `restore_blocked`.
    pub fn new(tf: &TrapFrame, restore_blocked: SignalSet, sig: &SignalInfo) -> (r: SignalFrame)
        ensures
            r == frame_of(*tf, restore_blocked, *sig),
    {
        SignalFrame { ucontext: UContext::new(tf, restore_blocked), siginfo: *sig, tf: *tf }
    }
}

/// User memory, as far as signal delivery needs it: frames written to and
/// read from user addresses, either of which may fault.
pub trait UserMemory {
    /// Writes `frame` at user address `addr`; `false` when the write faults.
    fn write_frame(&mut self, addr: usize, frame: &SignalFrame) -> bool;

    /// Reads the frame at user address `addr`; `None` when the read faults.
    fn read_frame(&mut self, addr: usize) -> Option<SignalFrame>;
}

} // verus!
