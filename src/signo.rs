use vstd::prelude::*;

verus! {

/// What the kernel does with a signal whose disposition is left at its default.
#[derive(Clone, Copy, Debug, PartialEq, Eq, Structural)]
pub enum DefaultSignalAction {
    /// End the process.
    Terminate,
    /// Discard the signal.
    Ignore,
    /// End the process and dump its core.
    CoreDump,
    /// Stop the process.
    Stop,
    /// Continue a stopped process.
    Continue,
}

/// A signal number: the standard signals 1 to 31, then the real-time signals 32 to 64.
#[allow(non_camel_case_types)]
#[derive(Clone, Copy, Debug, PartialEq, Eq, Structural)]
pub enum Signo {
    SIGHUP,
    SIGINT,
    SIGQUIT,
    SIGILL,
    SIGTRAP,
    SIGABRT,
    SIGBUS,
    SIGFPE,
    SIGKILL,
    SIGUSR1,
    SIGSEGV,
    SIGUSR2,
    SIGPIPE,
    SIGALRM,
    SIGTERM,
    SIGSTKFLT,
    SIGCHLD,
    SIGCONT,
    SIGSTOP,
    SIGTSTP,
    SIGTTIN,
    SIGTTOU,
    SIGURG,
    SIGXCPU,
    SIGXFSZ,
    SIGVTALRM,
    SIGPROF,
    SIGWINCH,
    SIGIO,
    SIGPWR,
    SIGSYS,
    SIGRTMIN,
    SIGRT1,
    SIGRT2,
    SIGRT3,
    SIGRT4,
    SIGRT5,
    SIGRT6,
    SIGRT7,
    SIGRT8,
    SIGRT9,
    SIGRT10,
    SIGRT11,
    SIGRT12,
    SIGRT13,
    SIGRT14,
    SIGRT15,
    SIGRT16,
    SIGRT17,
    SIGRT18,
    SIGRT19,
    SIGRT20,
    SIGRT21,
    SIGRT22,
    SIGRT23,
    SIGRT24,
    SIGRT25,
    SIGRT26,
    SIGRT27,
    SIGRT28,
    SIGRT29,
    SIGRT30,
    SIGRT31,
    SIGRT32,
}

/// The largest signal number.
pub const SIGNAL_COUNT: u32 = 64;

/// The first real-time signal number.
pub const SIGRTMIN_NR: u32 = 32;

impl Signo {
    /// The number of the signal, between 1 and 64.
    pub open spec fn nr(self) -> u32 {
        match self {
            Signo::SIGHUP => 1,
            Signo::SIGINT => 2,
            Signo::SIGQUIT => 3,
            Signo::SIGILL => 4,
            Signo::SIGTRAP => 5,
            Signo::SIGABRT => 6,
            Signo::SIGBUS => 7,
            Signo::SIGFPE => 8,
            Signo::SIGKILL => 9,
            Signo::SIGUSR1 => 10,
            Signo::SIGSEGV => 11,
            Signo::SIGUSR2 => 12,
            Signo::SIGPIPE => 13,
            Signo::SIGALRM => 14,
            Signo::SIGTERM => 15,
            Signo::SIGSTKFLT => 16,
            Signo::SIGCHLD => 17,
            Signo::SIGCONT => 18,
            Signo::SIGSTOP => 19,
            Signo::SIGTSTP => 20,
            Signo::SIGTTIN => 21,
            Signo::SIGTTOU => 22,
            Signo::SIGURG => 23,
            Signo::SIGXCPU => 24,
            Signo::SIGXFSZ => 25,
            Signo::SIGVTALRM => 26,
            Signo::SIGPROF => 27,
            Signo::SIGWINCH => 28,
            Signo::SIGIO => 29,
            Signo::SIGPWR => 30,
            Signo::SIGSYS => 31,
            Signo::SIGRTMIN => 32,
            Signo::SIGRT1 => 33,
            Signo::SIGRT2 => 34,
            Signo::SIGRT3 => 35,
            Signo::SIGRT4 => 36,
            Signo::SIGRT5 => 37,
            Signo::SIGRT6 => 38,
            Signo::SIGRT7 => 39,
            Signo::SIGRT8 => 40,
            Signo::SIGRT9 => 41,
            Signo::SIGRT10 => 42,
            Signo::SIGRT11 => 43,
            Signo::SIGRT12 => 44,
            Signo::SIGRT13 => 45,
            Signo::SIGRT14 => 46,
            Signo::SIGRT15 => 47,
            Signo::SIGRT16 => 48,
            Signo::SIGRT17 => 49,
            Signo::SIGRT18 => 50,
            Signo::SIGRT19 => 51,
            Signo::SIGRT20 => 52,
            Signo::SIGRT21 => 53,
            Signo::SIGRT22 => 54,
            Signo::SIGRT23 => 55,
            Signo::SIGRT24 => 56,
            Signo::SIGRT25 => 57,
            Signo::SIGRT26 => 58,
            Signo::SIGRT27 => 59,
            Signo::SIGRT28 => 60,
            Signo::SIGRT29 => 61,
            Signo::SIGRT30 => 62,
            Signo::SIGRT31 => 63,
            Signo::SIGRT32 => 64,
        }
    }

    /// The signal with number `n`, if `n` is a signal number.
    pub open spec fn from_nr(n: u32) -> Option<Signo> {
        match n {
            1 => Some(Signo::SIGHUP),
            2 => Some(Signo::SIGINT),
            3 => Some(Signo::SIGQUIT),
            4 => Some(Signo::SIGILL),
            5 => Some(Signo::SIGTRAP),
            6 => Some(Signo::SIGABRT),
            7 => Some(Signo::SIGBUS),
            8 => Some(Signo::SIGFPE),
            9 => Some(Signo::SIGKILL),
            10 => Some(Signo::SIGUSR1),
            11 => Some(Signo::SIGSEGV),
            12 => Some(Signo::SIGUSR2),
            13 => Some(Signo::SIGPIPE),
            14 => Some(Signo::SIGALRM),
            15 => Some(Signo::SIGTERM),
            16 => Some(Signo::SIGSTKFLT),
            17 => Some(Signo::SIGCHLD),
            18 => Some(Signo::SIGCONT),
            19 => Some(Signo::SIGSTOP),
            20 => Some(Signo::SIGTSTP),
            21 => Some(Signo::SIGTTIN),
            22 => Some(Signo::SIGTTOU),
            23 => Some(Signo::SIGURG),
            24 => Some(Signo::SIGXCPU),
            25 => Some(Signo::SIGXFSZ),
            26 => Some(Signo::SIGVTALRM),
            27 => Some(Signo::SIGPROF),
            28 => Some(Signo::SIGWINCH),
            29 => Some(Signo::SIGIO),
            30 => Some(Signo::SIGPWR),
            31 => Some(Signo::SIGSYS),
            32 => Some(Signo::SIGRTMIN),
            33 => Some(Signo::SIGRT1),
            34 => Some(Signo::SIGRT2),
            35 => Some(Signo::SIGRT3),
            36 => Some(Signo::SIGRT4),
            37 => Some(Signo::SIGRT5),
            38 => Some(Signo::SIGRT6),
            39 => Some(Signo::SIGRT7),
            40 => Some(Signo::SIGRT8),
            41 => Some(Signo::SIGRT9),
            42 => Some(Signo::SIGRT10),
            43 => Some(Signo::SIGRT11),
            44 => Some(Signo::SIGRT12),
            45 => Some(Signo::SIGRT13),
            46 => Some(Signo::SIGRT14),
            47 => Some(Signo::SIGRT15),
            48 => Some(Signo::SIGRT16),
            49 => Some(Signo::SIGRT17),
            50 => Some(Signo::SIGRT18),
            51 => Some(Signo::SIGRT19),
            52 => Some(Signo::SIGRT20),
            53 => Some(Signo::SIGRT21),
            54 => Some(Signo::SIGRT22),
            55 => Some(Signo::SIGRT23),
            56 => Some(Signo::SIGRT24),
            57 => Some(Signo::SIGRT25),
            58 => Some(Signo::SIGRT26),
            59 => Some(Signo::SIGRT27),
            60 => Some(Signo::SIGRT28),
            61 => Some(Signo::SIGRT29),
            62 => Some(Signo::SIGRT30),
            63 => Some(Signo::SIGRT31),
            64 => Some(Signo::SIGRT32),
            _ => None,
        }
    }

    /// Standard signals coalesce while pending; real-time signals queue.
    pub open spec fn is_realtime(self) -> bool {
        self.nr() >= SIGRTMIN_NR
    }

    pub open spec fn spec_default_action(self) -> DefaultSignalAction {
        match self {
            Signo::SIGQUIT | Signo::SIGILL | Signo::SIGTRAP | Signo::SIGABRT | Signo::SIGBUS
            | Signo::SIGFPE | Signo::SIGSEGV | Signo::SIGXCPU | Signo::SIGXFSZ | Signo::SIGSYS => {
                DefaultSignalAction::CoreDump
            },
            Signo::SIGCHLD | Signo::SIGURG | Signo::SIGWINCH => DefaultSignalAction::Ignore,
            Signo::SIGSTOP | Signo::SIGTSTP | Signo::SIGTTIN | Signo::SIGTTOU => {
                DefaultSignalAction::Stop
            },
            Signo::SIGCONT => DefaultSignalAction::Continue,
            _ => DefaultSignalAction::Terminate,
        }
    }

    /// Signals whose effect must take place even when they are ignored.
    pub open spec fn spec_has_side_effect(self) -> bool {
        self == Signo::SIGCONT || self == Signo::SIGKILL
    }

    /// The number of the signal.
    pub fn number(self) -> (r: u32)
        ensures
            r == self.nr(),
            1 <= r <= SIGNAL_COUNT,
    {
        match self {
            Signo::SIGHUP => 1,
            Signo::SIGINT => 2,
            Signo::SIGQUIT => 3,
            Signo::SIGILL => 4,
            Signo::SIGTRAP => 5,
            Signo::SIGABRT => 6,
            Signo::SIGBUS => 7,
            Signo::SIGFPE => 8,
            Signo::SIGKILL => 9,
            Signo::SIGUSR1 => 10,
            Signo::SIGSEGV => 11,
            Signo::SIGUSR2 => 12,
            Signo::SIGPIPE => 13,
            Signo::SIGALRM => 14,
            Signo::SIGTERM => 15,
            Signo::SIGSTKFLT => 16,
            Signo::SIGCHLD => 17,
            Signo::SIGCONT => 18,
            Signo::SIGSTOP => 19,
            Signo::SIGTSTP => 20,
            Signo::SIGTTIN => 21,
            Signo::SIGTTOU => 22,
            Signo::SIGURG => 23,
            Signo::SIGXCPU => 24,
            Signo::SIGXFSZ => 25,
            Signo::SIGVTALRM => 26,
            Signo::SIGPROF => 27,
            Signo::SIGWINCH => 28,
            Signo::SIGIO => 29,
            Signo::SIGPWR => 30,
            Signo::SIGSYS => 31,
            Signo::SIGRTMIN => 32,
            Signo::SIGRT1 => 33,
            Signo::SIGRT2 => 34,
            Signo::SIGRT3 => 35,
            Signo::SIGRT4 => 36,
            Signo::SIGRT5 => 37,
            Signo::SIGRT6 => 38,
            Signo::SIGRT7 => 39,
            Signo::SIGRT8 => 40,
            Signo::SIGRT9 => 41,
            Signo::SIGRT10 => 42,
            Signo::SIGRT11 => 43,
            Signo::SIGRT12 => 44,
            Signo::SIGRT13 => 45,
            Signo::SIGRT14 => 46,
            Signo::SIGRT15 => 47,
            Signo::SIGRT16 => 48,
            Signo::SIGRT17 => 49,
            Signo::SIGRT18 => 50,
            Signo::SIGRT19 => 51,
            Signo::SIGRT20 => 52,
            Signo::SIGRT21 => 53,
            Signo::SIGRT22 => 54,
            Signo::SIGRT23 => 55,
            Signo::SIGRT24 => 56,
            Signo::SIGRT25 => 57,
            Signo::SIGRT26 => 58,
            Signo::SIGRT27 => 59,
            Signo::SIGRT28 => 60,
            Signo::SIGRT29 => 61,
            Signo::SIGRT30 => 62,
            Signo::SIGRT31 => 63,
            Signo::SIGRT32 => 64,
        }
    }

    /// The signal with number `n`; `None` unless `1 <= n <= 64`.
    pub fn from_number(n: u32) -> (r: Option<Signo>)
        ensures
            r == Signo::from_nr(n),
            r.is_some() <==> 1 <= n <= SIGNAL_COUNT,
            r matches Some(s) ==> s.nr() == n,
    {
        match n {
            1 => Some(Signo::SIGHUP),
            2 => Some(Signo::SIGINT),
            3 => Some(Signo::SIGQUIT),
            4 => Some(Signo::SIGILL),
            5 => Some(Signo::SIGTRAP),
            6 => Some(Signo::SIGABRT),
            7 => Some(Signo::SIGBUS),
            8 => Some(Signo::SIGFPE),
            9 => Some(Signo::SIGKILL),
            10 => Some(Signo::SIGUSR1),
            11 => Some(Signo::SIGSEGV),
            12 => Some(Signo::SIGUSR2),
            13 => Some(Signo::SIGPIPE),
            14 => Some(Signo::SIGALRM),
            15 => Some(Signo::SIGTERM),
            16 => Some(Signo::SIGSTKFLT),
            17 => Some(Signo::SIGCHLD),
            18 => Some(Signo::SIGCONT),
            19 => Some(Signo::SIGSTOP),
            20 => Some(Signo::SIGTSTP),
            21 => Some(Signo::SIGTTIN),
            22 => Some(Signo::SIGTTOU),
            23 => Some(Signo::SIGURG),
            24 => Some(Signo::SIGXCPU),
            25 => Some(Signo::SIGXFSZ),
            26 => Some(Signo::SIGVTALRM),
            27 => Some(Signo::SIGPROF),
            28 => Some(Signo::SIGWINCH),
            29 => Some(Signo::SIGIO),
            30 => Some(Signo::SIGPWR),
            31 => Some(Signo::SIGSYS),
            32 => Some(Signo::SIGRTMIN),
            33 => Some(Signo::SIGRT1),
            34 => Some(Signo::SIGRT2),
            35 => Some(Signo::SIGRT3),
            36 => Some(Signo::SIGRT4),
            37 => Some(Signo::SIGRT5),
            38 => Some(Signo::SIGRT6),
            39 => Some(Signo::SIGRT7),
            40 => Some(Signo::SIGRT8),
            41 => Some(Signo::SIGRT9),
            42 => Some(Signo::SIGRT10),
            43 => Some(Signo::SIGRT11),
            44 => Some(Signo::SIGRT12),
            45 => Some(Signo::SIGRT13),
            46 => Some(Signo::SIGRT14),
            47 => Some(Signo::SIGRT15),
            48 => Some(Signo::SIGRT16),
            49 => Some(Signo::SIGRT17),
            50 => Some(Signo::SIGRT18),
            51 => Some(Signo::SIGRT19),
            52 => Some(Signo::SIGRT20),
            53 => Some(Signo::SIGRT21),
            54 => Some(Signo::SIGRT22),
            55 => Some(Signo::SIGRT23),
            56 => Some(Signo::SIGRT24),
            57 => Some(Signo::SIGRT25),
            58 => Some(Signo::SIGRT26),
            59 => Some(Signo::SIGRT27),
            60 => Some(Signo::SIGRT28),
            61 => Some(Signo::SIGRT29),
            62 => Some(Signo::SIGRT30),
            63 => Some(Signo::SIGRT31),
            64 => Some(Signo::SIGRT32),
            _ => None,
        }
    }

    /// Whether the signal is a real-time signal.
    pub fn is_rt(self) -> (r: bool)
        ensures
            r == self.is_realtime(),
    {
        self.number() >= SIGRTMIN_NR
    }

    /// The action taken for the signal under the default disposition.
    pub fn default_action(self) -> (r: DefaultSignalAction)
        ensures
            r == self.spec_default_action(),
    {
        match self {
            Signo::SIGQUIT | Signo::SIGILL | Signo::SIGTRAP | Signo::SIGABRT | Signo::SIGBUS
            | Signo::SIGFPE | Signo::SIGSEGV | Signo::SIGXCPU | Signo::SIGXFSZ | Signo::SIGSYS => {
                DefaultSignalAction::CoreDump
            },
            Signo::SIGCHLD | Signo::SIGURG | Signo::SIGWINCH => DefaultSignalAction::Ignore,
            Signo::SIGSTOP | Signo::SIGTSTP | Signo::SIGTTIN | Signo::SIGTTOU => {
                DefaultSignalAction::Stop
            },
            Signo::SIGCONT => DefaultSignalAction::Continue,
            _ => DefaultSignalAction::Terminate,
        }
    }

    /// Whether the signal must be delivered even when it is ignored.
    pub fn has_side_effect(self) -> (r: bool)
        ensures
            r == self.spec_has_side_effect(),
    {
        matches!(self, Signo::SIGCONT | Signo::SIGKILL)
    }

}

/// Numbers and signals correspond one to one.
pub proof fn lemma_nr_from_nr(s: Signo)
    ensures
        Signo::from_nr(s.nr()) == Some(s),
        1 <= s.nr() <= SIGNAL_COUNT,
{
}

/// Every number from 1 to 64 names a signal, and no other number does.
pub proof fn lemma_from_nr_nr(n: u32)
    ensures
        Signo::from_nr(n).is_some() <==> 1 <= n <= SIGNAL_COUNT,
        Signo::from_nr(n) matches Some(s) ==> s.nr() == n,
{
}

/// Two signals with the same number are the same signal.
pub proof fn lemma_nr_injective(a: Signo, b: Signo)
    ensures
        a.nr() == b.nr() <==> a == b,
{
    lemma_nr_from_nr(a);
    lemma_nr_from_nr(b);
}

} // verus!
