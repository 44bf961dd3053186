use vstd::prelude::*;

use crate::set::SignalSet;
use crate::signo::Signo;

verus! {

/// `sa_handler` value that selects the default action.
pub const SIG_DFL: usize = 0;

/// `sa_handler` value that ignores the signal.
pub const SIG_IGN: usize = 1;

/// `SA_SIGINFO`: the handler takes three arguments.
pub const SA_SIGINFO: u64 = 0x4;

/// `SA_RESTORER`: `sa_restorer` holds the return trampoline.
pub const SA_RESTORER: u64 = 0x0400_0000;

/// `SA_ONSTACK`: run the handler on the alternate signal stack.
pub const SA_ONSTACK: u64 = 0x0800_0000;

/// `SA_RESTART`: restart system calls that the signal interrupts.
pub const SA_RESTART: u64 = 0x1000_0000;

/// `SA_NODEFER`: do not block the signal while its handler runs.
pub const SA_NODEFER: u64 = 0x4000_0000;

/// `SA_RESETHAND`: reset the action to the default once the handler runs.
pub const SA_RESETHAND: u64 = 0x8000_0000;

/// Every flag bit that a `sigaction` may carry.
pub const SA_ALL: u64 = SA_SIGINFO | SA_RESTORER | SA_ONSTACK | SA_RESTART | SA_NODEFER
    | SA_RESETHAND;

/// One flag of a signal action.
#[allow(non_camel_case_types)]
#[derive(Clone, Copy, Debug, PartialEq, Eq, Structural)]
pub enum SignalActionFlag {
    SIGINFO,
    RESTORER,
    ONSTACK,
    RESTART,
    NODEFER,
    RESETHAND,
}

impl SignalActionFlag {
    /// The flag's bit in `sa_flags`.
    pub open spec fn spec_bit(self) -> u64 {
        match self {
            SignalActionFlag::SIGINFO => SA_SIGINFO,
            SignalActionFlag::RESTORER => SA_RESTORER,
            SignalActionFlag::ONSTACK => SA_ONSTACK,
            SignalActionFlag::RESTART => SA_RESTART,
            SignalActionFlag::NODEFER => SA_NODEFER,
            SignalActionFlag::RESETHAND => SA_RESETHAND,
        }
    }

    /// The flag's bit in `sa_flags`.
    pub fn bit(self) -> (r: u64)
        ensures
            r == self.spec_bit(),
    {
        match self {
            SignalActionFlag::SIGINFO => SA_SIGINFO,
            SignalActionFlag::RESTORER => SA_RESTORER,
            SignalActionFlag::ONSTACK => SA_ONSTACK,
            SignalActionFlag::RESTART => SA_RESTART,
            SignalActionFlag::NODEFER => SA_NODEFER,
            SignalActionFlag::RESETHAND => SA_RESETHAND,
        }
    }
}

/// The flags of a signal action: a subset of `SA_ALL`.
#[derive(Clone, Copy, Debug)]
pub struct SignalActionFlags {
    bits: u64,
}

impl SignalActionFlags {
    /// The flag bits.
    pub closed spec fn spec_bits(self) -> u64 {
        self.bits
    }

    /// Whether `flag` is set.
    pub open spec fn has(self, flag: SignalActionFlag) -> bool {
        self.spec_bits() & flag.spec_bit() != 0
    }

    /// Every set bit is a known flag.
    pub open spec fn valid(self) -> bool {
        self.spec_bits() & !SA_ALL == 0
    }

    /// No flag.
    pub fn empty() -> (r: SignalActionFlags)
        ensures
            r.spec_bits() == 0,
            r.valid(),
    {
        let r = SignalActionFlags { bits: 0 };
        assert(0u64 & !SA_ALL == 0) by (bit_vector);
        r
    }

    /// The flags whose bits are `bits`, or `None` if `bits` holds a bit
    /// that is no known flag.
    pub fn from_bits(bits: u64) -> (r: Option<SignalActionFlags>)
        ensures
            r is Some <==> bits & !SA_ALL == 0,
            r matches Some(f) ==> f.spec_bits() == bits && f.valid(),
    {
        if bits & !SA_ALL == 0 {
            Some(SignalActionFlags { bits })
        } else {
            None
        }
    }

    /// The flag bits.
    pub fn bits(&self) -> (r: u64)
        ensures
            r == self.spec_bits(),
    {
        self.bits
    }

    /// Whether no flag is set.
    pub fn is_empty(&self) -> (r: bool)
        ensures
            r == (self.spec_bits() == 0),
    {
        self.bits == 0
    }

    /// Whether `flag` is set.
    pub fn contains(&self, flag: SignalActionFlag) -> (r: bool)
        ensures
            r == self.has(flag),
    {
        self.bits & flag.bit() != 0
    }

    /// Sets `flag`.
    pub fn insert(&mut self, flag: SignalActionFlag)
        ensures
            final(self).spec_bits() == old(self).spec_bits() | flag.spec_bit(),
            final(self).has(flag),
            old(self).valid() ==> final(self).valid(),
    {
        let b = flag.bit();
        let old_bits = self.bits;
        self.bits = self.bits | b;
        proof {
            lemma_flag_bit(flag);
            assert(b != 0 ==> (old_bits | b) & b != 0) by (bit_vector);
            assert(b & !SA_ALL == 0 ==> old_bits & !SA_ALL == 0 ==> (old_bits | b) & !SA_ALL == 0)
                by (bit_vector);
        }
    }

    /// Clears `flag`.
    pub fn remove(&mut self, flag: SignalActionFlag)
        ensures
            final(self).spec_bits() == old(self).spec_bits() & !flag.spec_bit(),
            !final(self).has(flag),
            old(self).valid() ==> final(self).valid(),
    {
        let b = flag.bit();
        let old_bits = self.bits;
        self.bits = self.bits & !b;
        proof {
            assert((old_bits & !b) & b == 0) by (bit_vector);
            assert(old_bits & !SA_ALL == 0 ==> (old_bits & !b) & !SA_ALL == 0) by (bit_vector);
        }
    }
}

/// Each flag has a bit of its own, and it is a known flag.
proof fn lemma_flag_bit(flag: SignalActionFlag)
    ensures
        flag.spec_bit() != 0,
        flag.spec_bit() & !SA_ALL == 0,
{
    assert(SA_SIGINFO & !SA_ALL == 0) by (bit_vector);
    assert(SA_RESTORER & !SA_ALL == 0) by (bit_vector);
    assert(SA_ONSTACK & !SA_ALL == 0) by (bit_vector);
    assert(SA_RESTART & !SA_ALL == 0) by (bit_vector);
    assert(SA_NODEFER & !SA_ALL == 0) by (bit_vector);
    assert(SA_RESETHAND & !SA_ALL == 0) by (bit_vector);
}

impl Default for SignalActionFlags {
    fn default() -> (r: SignalActionFlags)
        ensures
            r.spec_bits() == 0,
    {
        SignalActionFlags::empty()
    }
}

/// What a process does with a signal.
#[derive(Clone, Copy, Debug, PartialEq, Eq, Structural)]
pub enum SignalDisposition {
    /// Use the default signal action.
    Default,
    /// Ignore the signal.
    Ignore,
    /// Run the user handler at this address.
    Handler(usize),
}

impl Default for SignalDisposition {
    fn default() -> (r: SignalDisposition)
        ensures
            r == SignalDisposition::Default,
    {
        SignalDisposition::Default
    }
}

/// A signal action, as `struct sigaction` sets it.
#[derive(Clone, Copy, Debug)]
pub struct SignalAction {
    pub flags: SignalActionFlags,
    /// Signals blocked while the handler runs.
    pub mask: SignalSet,
    pub disposition: SignalDisposition,
    /// The return trampoline of the handler; `None` for the process default.
    pub restorer: Option<usize>,
}

/// The action that every signal has at first: default disposition, no flag,
/// empty mask, no restorer.
pub open spec fn is_default_action(a: SignalAction) -> bool {
    &&& a.flags.spec_bits() == 0
    &&& a.mask@ == Set::<Signo>::empty()
    &&& a.disposition == SignalDisposition::Default
    &&& a.restorer is None
}

/// The action as the kernel ABI lays it out (`struct k_sigaction`), with
/// the handler and the restorer as addresses.
#[allow(non_camel_case_types)]
#[derive(Clone, Copy, Debug)]
pub struct k_sigaction {
    /// `SIG_DFL`, `SIG_IGN` or the handler's address.
    pub handler: usize,
    pub flags: u64,
    /// The restorer's address, 0 for none.
    pub restorer: usize,
    pub mask: SignalSet,
}

/// The `sa_handler` value that stands for disposition `d`.
pub open spec fn handler_word(d: SignalDisposition) -> usize {
    match d {
        SignalDisposition::Default => SIG_DFL,
        SignalDisposition::Ignore => SIG_IGN,
        SignalDisposition::Handler(h) => h,
    }
}

/// The disposition that `sa_handler` value `h` stands for.
pub open spec fn disposition_of(h: usize) -> SignalDisposition {
    if h == SIG_DFL {
        SignalDisposition::Default
    } else if h == SIG_IGN {
        SignalDisposition::Ignore
    } else {
        SignalDisposition::Handler(h)
    }
}

/// The restorer that an action read from the ABI gets: the given one when
/// `SA_RESTORER` is set and it is not null, else the process default.
pub open spec fn restorer_of(flags: u64, restorer: usize, default_restorer: usize) -> usize {
    if flags & SA_RESTORER != 0 && restorer != 0 {
        restorer
    } else {
        default_restorer
    }
}

/// Why a `sigaction` from user space is refused.
#[derive(Clone, Copy, Debug, PartialEq, Eq, Structural)]
pub enum SignalError {
    /// A flag bit that no flag has (`EINVAL`).
    InvalidFlags,
}

impl SignalAction {
    /// The default action.
    pub fn new() -> (r: SignalAction)
        ensures
            is_default_action(r),
    {
        SignalAction {
            flags: SignalActionFlags::empty(),
            mask: SignalSet::new(),
            disposition: SignalDisposition::Default,
            restorer: None,
        }
    }

    /// Writes the action into `dest` in the kernel ABI layout.
    pub fn to_ctype(&self, dest: &mut k_sigaction)
        ensures
            final(dest).flags == self.flags.spec_bits(),
            final(dest).mask == self.mask,
            final(dest).handler == handler_word(self.disposition),
            final(dest).restorer == match self.restorer {
                Some(r) => r,
                None => 0,
            },
    {
        dest.flags = self.flags.bits();
        dest.mask = self.mask;
        dest.handler = match self.disposition {
            SignalDisposition::Default => SIG_DFL,
            SignalDisposition::Ignore => SIG_IGN,
            SignalDisposition::Handler(h) => h,
        };
        dest.restorer = match self.restorer {
            Some(r) => r,
            None => 0,
        };
    }

    /// Reads an action from the kernel ABI layout. Unknown flag bits are
    /// refused; the restorer falls back to `default_restorer`.
    pub fn from_ctype(value: &k_sigaction, default_restorer: usize) -> (r: Result<
        SignalAction,
        SignalError,
    >)
        ensures
            r is Err <==> value.flags & !SA_ALL != 0,
            r matches Err(e) ==> e == SignalError::InvalidFlags,
            r matches Ok(a) ==> {
                &&& a.flags.spec_bits() == value.flags
                &&& a.mask == value.mask
                &&& a.disposition == disposition_of(value.handler)
                &&& a.restorer == Some(
                    restorer_of(value.flags, value.restorer, default_restorer),
                )
            },
    {
        let flags = match SignalActionFlags::from_bits(value.flags) {
            Some(f) => f,
            None => {
                return Err(SignalError::InvalidFlags);
            },
        };
        let disposition = if value.handler == SIG_DFL {
            SignalDisposition::Default
        } else if value.handler == SIG_IGN {
            SignalDisposition::Ignore
        } else {
            SignalDisposition::Handler(value.handler)
        };
        let restorer = if flags.contains(SignalActionFlag::RESTORER) && value.restorer != 0 {
            value.restorer
        } else {
            default_restorer
        };
        Ok(SignalAction { flags, mask: value.mask, disposition, restorer: Some(restorer) })
    }
}

impl Default for SignalAction {
    fn default() -> (r: SignalAction)
        ensures
            is_default_action(r),
    {
        SignalAction::new()
    }
}

/// The action table of a process: one action per signal.
#[derive(Clone, Copy, Debug)]
pub struct SignalActions {
    actions: [SignalAction; 64],
}

impl SignalActions {
    /// The action of signal `s`.
    pub closed spec fn spec_get(&self, s: Signo) -> SignalAction {
        self.actions@[s.nr() - 1]
    }

    /// Every signal at its default action.
    pub fn new() -> (r: SignalActions)
        ensures
            forall|s: Signo| is_default_action(#[trigger] r.spec_get(s)),
    {
        let r = SignalActions { actions: [SignalAction::new();64] };
        assert forall|s: Signo| is_default_action(#[trigger] r.spec_get(s)) by {
            crate::signo::lemma_nr_from_nr(s);
        }
        r
    }

    /// The action of signal `s`.
    pub fn get(&self, s: Signo) -> (r: &SignalAction)
        ensures
            *r == self.spec_get(s),
    {
        &self.actions[(s.number() - 1) as usize]
    }

    /// Replaces the action of signal `s`.
    pub fn set(&mut self, s: Signo, action: SignalAction)
        ensures
            final(self).spec_get(s) == action,
            forall|t: Signo| t != s ==> final(self).spec_get(t) == old(self).spec_get(t),
    {
        let i = (s.number() - 1) as usize;
        self.actions[i] = action;
        proof {
            assert forall|t: Signo| t != s implies self.spec_get(t) == old(self).spec_get(t) by {
                crate::signo::lemma_nr_injective(s, t);
                crate::signo::lemma_nr_from_nr(t);
            }
        }
    }
}

impl Default for SignalActions {
    fn default() -> (r: SignalActions)
        ensures
            forall|s: Signo| is_default_action(#[trigger] r.spec_get(s)),
    {
        SignalActions::new()
    }
}

} // verus!
