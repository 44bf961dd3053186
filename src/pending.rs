use vstd::prelude::*;

use crate::info::SignalInfo;
use crate::set::{lemma_lowest, lowest, SignalSet};
use crate::signo::{lemma_nr_from_nr, lemma_nr_injective, Signo};

verus! {

/// How many instances of one real-time signal may wait at a time.
pub const MAX_QUEUED_RT: usize = 1024;

/// Pending signals as a model: the infos that wait for each signal, oldest first.
pub type PendingQueues = Map<Signo, Seq<SignalInfo>>;

/// The model of a store with nothing pending.
pub open spec fn no_pending() -> PendingQueues {
    Map::new(|s: Signo| true, |s: Signo| Seq::<SignalInfo>::empty())
}

/// The signals with at least one pending instance.
pub open spec fn pending_signals(q: PendingQueues) -> Set<Signo> {
    Set::new(|s: Signo| q[s].len() > 0)
}

/// What every store's model satisfies: a queue for each signal, holding
/// infos of that signal only; at most one for a standard signal, at most
/// `MAX_QUEUED_RT` for a real-time one.
pub open spec fn queues_wf(q: PendingQueues) -> bool {
    forall|s: Signo|
        {
            &&& #[trigger] q.dom().contains(s)
            &&& q[s].len() <= MAX_QUEUED_RT
            &&& !s.is_realtime() ==> q[s].len() <= 1
            &&& forall|k: int| 0 <= k < q[s].len() ==> (#[trigger] q[s][k]).signo == s
        }
}

/// Whether a store with model `q` takes `info`: a standard signal only when
/// none of it is pending, a real-time one while its queue has room.
pub open spec fn accepts(q: PendingQueues, info: SignalInfo) -> bool {
    let s = info.signo;
    if s.is_realtime() {
        q[s].len() < MAX_QUEUED_RT
    } else {
        q[s].len() == 0
    }
}

/// The model after `put_signal(info)`.
pub open spec fn put_model(q: PendingQueues, info: SignalInfo) -> PendingQueues {
    if accepts(q, info) {
        q.insert(info.signo, q[info.signo].push(info))
    } else {
        q
    }
}

/// The signal that `dequeue_signal(mask)` takes: the pending one of `mask`
/// with the smallest number.
pub open spec fn dequeue_choice(q: PendingQueues, mask: Set<Signo>) -> Option<Signo> {
    lowest(pending_signals(q).intersect(mask))
}

/// The model after `dequeue_signal(mask)`, and the info it returns.
pub open spec fn dequeue_model(q: PendingQueues, mask: Set<Signo>) -> (PendingQueues, Option<
    SignalInfo,
>) {
    match dequeue_choice(q, mask) {
        Some(s) => (q.insert(s, q[s].drop_first()), Some(q[s][0])),
        None => (q, None),
    }
}

/// The model after `remove_signal(s)`.
pub open spec fn remove_model(q: PendingQueues, s: Signo) -> PendingQueues {
    q.insert(s, Seq::<SignalInfo>::empty())
}

/// How many infos are pending in `q` for signal numbers `n` to 64.
pub open spec fn count_from(q: PendingQueues, n: u32) -> nat
    decreases 65 - n,
{
    if n == 0 || n > 64 {
        0
    } else {
        q[Signo::from_nr(n).unwrap()].len() + count_from(q, (n + 1) as u32)
    }
}

/// How many infos are pending in `q`.
pub open spec fn pending_count(q: PendingQueues) -> nat {
    count_from(q, 1)
}

proof fn lemma_count_shrinks(q: PendingQueues, r: PendingQueues, s: Signo, n: u32)
    requires
        1 <= n <= 65,
        forall|t: Signo| t != s ==> r[t].len() == q[t].len(),
        r[s].len() < q[s].len(),
    ensures
        n <= s.nr() ==> count_from(r, n) < count_from(q, n),
        n > s.nr() ==> count_from(r, n) == count_from(q, n),
    decreases 65 - n,
{
    lemma_nr_from_nr(s);
    if n <= 64 {
        lemma_count_shrinks(q, r, s, (n + 1) as u32);
        crate::signo::lemma_from_nr_nr(n);
        let t = Signo::from_nr(n).unwrap();
        lemma_nr_injective(t, s);
    }
}

/// A dequeue that returns an info leaves fewer infos pending.
pub proof fn lemma_dequeue_count(q: PendingQueues, mask: Set<Signo>)
    requires
        queues_wf(q),
        dequeue_model(q, mask).1 is Some,
    ensures
        pending_count(dequeue_model(q, mask).0) < pending_count(q),
{
    lemma_lowest(pending_signals(q).intersect(mask));
    let s = dequeue_choice(q, mask).unwrap();
    lemma_count_shrinks(q, dequeue_model(q, mask).0, s, 1);
}

/// What a dequeue does: it returns an info exactly when a pending signal
/// is in `mask`; the info is of that signal, and no queue grows.
pub proof fn lemma_dequeue(q: PendingQueues, mask: Set<Signo>)
    requires
        queues_wf(q),
    ensures
        dequeue_model(q, mask).1 is None <==> pending_signals(q).disjoint(mask),
        dequeue_model(q, mask).1 matches Some(info) ==> mask.contains(info.signo)
            && dequeue_choice(q, mask) == Some(info.signo),
        forall|s: Signo| #[trigger] dequeue_model(q, mask).0[s].len() <= q[s].len(),
{
    let both = pending_signals(q).intersect(mask);
    lemma_lowest(both);
    if dequeue_choice(q, mask) is None {
        assert forall|s: Signo| !(pending_signals(q).contains(s) && mask.contains(s)) by {
            assert(!both.contains(s));
        }
    } else {
        let s = dequeue_choice(q, mask).unwrap();
        assert(q.dom().contains(s));
        assert(q[s][0].signo == s);
        assert(!pending_signals(q).disjoint(mask)) by {
            assert(both.contains(s));
        }
    }
}

/// A store whose queues are no longer than those of an empty store is empty.
pub proof fn lemma_nonempty_shrink(q: PendingQueues, r: PendingQueues)
    requires
        forall|s: Signo| #[trigger] r[s].len() <= q[s].len(),
        pending_signals(q) == Set::<Signo>::empty(),
    ensures
        pending_signals(r) == Set::<Signo>::empty(),
{
    assert forall|s: Signo| !pending_signals(r).contains(s) by {
        assert(!pending_signals(q).contains(s));
    }
    assert(pending_signals(r) =~= Set::<Signo>::empty());
}

/// Putting keeps a model well formed when the info's signal matches.
pub proof fn lemma_put_wf(q: PendingQueues, info: SignalInfo)
    requires
        queues_wf(q),
    ensures
        queues_wf(put_model(q, info)),
{
    let r = put_model(q, info);
    assert forall|s: Signo| #[trigger] r.dom().contains(s) by {
        assert(q.dom().contains(s));
    }
    assert forall|s: Signo, k: int| 0 <= k < r[s].len() implies (#[trigger] r[s][k]).signo == s by {
        assert(q.dom().contains(s));
    }
}

/// Dequeueing keeps a model well formed.
pub proof fn lemma_dequeue_wf(q: PendingQueues, mask: Set<Signo>)
    requires
        queues_wf(q),
    ensures
        queues_wf(dequeue_model(q, mask).0),
{
    let r = dequeue_model(q, mask).0;
    lemma_lowest(pending_signals(q).intersect(mask));
    assert forall|s: Signo| #[trigger] r.dom().contains(s) implies {
        &&& r[s].len() <= MAX_QUEUED_RT
        &&& !s.is_realtime() ==> r[s].len() <= 1
        &&& forall|k: int| 0 <= k < r[s].len() ==> (#[trigger] r[s][k]).signo == s
    } by {
        assert(q.dom().contains(s));
        assert forall|k: int| 0 <= k < r[s].len() implies (#[trigger] r[s][k]).signo == s by {
            if dequeue_choice(q, mask) == Some(s) {
                assert(r[s][k] == q[s][k + 1]);
            }
        }
    }
    assert forall|s: Signo| #[trigger] r.dom().contains(s) by {
        assert(q.dom().contains(s));
    }
}

/// Removing keeps a model well formed.
pub proof fn lemma_remove_wf(q: PendingQueues, signo: Signo)
    requires
        queues_wf(q),
    ensures
        queues_wf(remove_model(q, signo)),
{
    let r = remove_model(q, signo);
    assert forall|s: Signo| #[trigger] r.dom().contains(s) by {
        assert(q.dom().contains(s));
    }
}

/// The model after putting each of `infos`, in order.
pub open spec fn put_all(q: PendingQueues, infos: Seq<SignalInfo>) -> PendingQueues
    decreases infos.len(),
{
    if infos.len() == 0 {
        q
    } else {
        put_model(put_all(q, infos.drop_last()), infos.last())
    }
}

/// The model after `n` dequeues with `mask`, and the infos they returned.
pub open spec fn drain(q: PendingQueues, mask: Set<Signo>, n: nat) -> (PendingQueues, Seq<
    SignalInfo,
>)
    decreases n,
{
    if n == 0 {
        (q, Seq::empty())
    } else {
        let (q1, r) = dequeue_model(q, mask);
        let (q2, rest) = drain(q1, mask, (n - 1) as nat);
        (
            q2,
            match r {
                Some(info) => seq![info] + rest,
                None => rest,
            },
        )
    }
}

proof fn lemma_put_all_wf(q: PendingQueues, infos: Seq<SignalInfo>)
    requires
        queues_wf(q),
    ensures
        queues_wf(put_all(q, infos)),
    decreases infos.len(),
{
    if infos.len() > 0 {
        lemma_put_all_wf(q, infos.drop_last());
        lemma_put_wf(put_all(q, infos.drop_last()), infos.last());
    }
}

/// Dequeueing `n` times with the mask that holds `s` alone returns the
/// first `n` infos of `s`'s queue, oldest first, and leaves the rest.
pub proof fn lemma_drain_one(q: PendingQueues, s: Signo, n: nat)
    requires
        queues_wf(q),
    ensures
        drain(q, set![s], n).1 == q[s].take(if n <= q[s].len() { n as int } else { q[s].len() as int }),
        drain(q, set![s], n).0[s] == q[s].skip(if n <= q[s].len() { n as int } else { q[s].len() as int }),
    decreases n,
{
    if n > 0 {
        let mask = set![s];
        lemma_dequeue(q, mask);
        lemma_dequeue_wf(q, mask);
        let q1 = dequeue_model(q, mask).0;
        lemma_drain_one(q1, s, (n - 1) as nat);
        lemma_lowest(pending_signals(q).intersect(mask));
        assert(q.dom().contains(s));
        if q[s].len() > 0 {
            assert(pending_signals(q).intersect(mask).contains(s));
            assert(dequeue_choice(q, mask) == Some(s));
            assert(q1[s] == q[s].drop_first());
            let k: int = if n <= q[s].len() { n as int } else { q[s].len() as int };
            assert(drain(q, mask, n).1 =~= q[s].take(k));
            assert(drain(q, mask, n).0[s] =~= q[s].skip(k));
        } else {
            assert(pending_signals(q).intersect(mask) =~= Set::<Signo>::empty());
            assert(q[s].take(0) =~= Seq::<SignalInfo>::empty());
            assert(q[s].skip(0) =~= q[s]);
        }
    }
}

/// Putting infos of one real-time signal `s`, while its queue has room,
/// appends them to its queue in order.
proof fn lemma_put_all_realtime(q: PendingQueues, s: Signo, infos: Seq<SignalInfo>)
    requires
        queues_wf(q),
        s.is_realtime(),
        forall|i: int| 0 <= i < infos.len() ==> (#[trigger] infos[i]).signo == s,
        q[s].len() + infos.len() <= MAX_QUEUED_RT,
    ensures
        put_all(q, infos)[s] == q[s] + infos,
    decreases infos.len(),
{
    if infos.len() == 0 {
        assert(q[s] + infos =~= q[s]);
    } else {
        let init = infos.drop_last();
        lemma_put_all_realtime(q, s, init);
        assert(infos.last().signo == s);
        assert(q[s] + infos =~= (q[s] + init).push(infos.last()));
    }
}

/// Putting infos of one standard signal `s` keeps a single instance: the
/// one already pending, else the first put.
proof fn lemma_put_all_standard(q: PendingQueues, s: Signo, infos: Seq<SignalInfo>)
    requires
        queues_wf(q),
        !s.is_realtime(),
        infos.len() > 0,
        forall|i: int| 0 <= i < infos.len() ==> (#[trigger] infos[i]).signo == s,
    ensures
        put_all(q, infos)[s] == if q[s].len() == 0 {
            seq![infos[0]]
        } else {
            q[s]
        },
    decreases infos.len(),
{
    assert(q.dom().contains(s));
    assert(infos.last().signo == s);
    let init = infos.drop_last();
    lemma_put_all_wf(q, init);
    assert(put_all(q, init).dom().contains(s));
    if infos.len() == 1 {
        assert(init =~= Seq::<SignalInfo>::empty());
        if q[s].len() == 0 {
            assert(seq![infos[0]] =~= q[s].push(infos[0]));
        }
    } else {
        assert(init[0] == infos[0]);
        lemma_put_all_standard(q, s, init);
    }
}

/// Fetching with no eligible signal: a dequeue returns nothing exactly when
/// no pending signal is in the mask.
pub proof fn lemma_dequeue_none_iff_disjoint(q: PendingQueues, mask: Set<Signo>)
    requires
        queues_wf(q),
    ensures
        dequeue_model(q, mask).1 is None <==> pending_signals(q).intersect(mask) == Set::<
            Signo,
        >::empty(),
{
    lemma_dequeue(q, mask);
    if pending_signals(q).disjoint(mask) {
        assert(pending_signals(q).intersect(mask) =~= Set::<Signo>::empty());
    } else {
        assert(pending_signals(q).intersect(mask) != Set::<Signo>::empty()) by {
            let t = choose|t: Signo| pending_signals(q).contains(t) && mask.contains(t);
            assert(pending_signals(q).intersect(mask).contains(t));
        }
    }
}

/// Standard signals coalesce: after any number (at least one) of puts of
/// the same standard signal `s`, dequeues with a mask of `s` return exactly
/// one info of `s`, however many are made; it is the first one put when
/// `s` was not pending before.
pub proof fn lemma_standard_coalescing(q: PendingQueues, s: Signo, infos: Seq<SignalInfo>, n: nat)
    requires
        queues_wf(q),
        !s.is_realtime(),
        infos.len() > 0,
        forall|i: int| 0 <= i < infos.len() ==> (#[trigger] infos[i]).signo == s,
        n >= 1,
    ensures
        drain(put_all(q, infos), set![s], n).1.len() == 1,
        drain(put_all(q, infos), set![s], n).1[0].signo == s,
        q[s].len() == 0 ==> drain(put_all(q, infos), set![s], n).1 == seq![infos[0]],
{
    assert(q.dom().contains(s));
    lemma_put_all_standard(q, s, infos);
    lemma_put_all_wf(q, infos);
    let p = put_all(q, infos);
    assert(p.dom().contains(s));
    assert(p[s].len() == 1);
    lemma_drain_one(p, s, n);
    assert(p[s].take(1) =~= p[s]);
}

/// Real-time signals queue: after putting `infos` of real-time signal `s`
/// into a store where `s` is not pending (and the queue has room), as many
/// dequeues with a mask of `s` return them in the order they were put, and
/// then `s` is no longer pending.
pub proof fn lemma_realtime_queuing(q: PendingQueues, s: Signo, infos: Seq<SignalInfo>)
    requires
        queues_wf(q),
        s.is_realtime(),
        q[s].len() == 0,
        infos.len() <= MAX_QUEUED_RT,
        forall|i: int| 0 <= i < infos.len() ==> (#[trigger] infos[i]).signo == s,
    ensures
        drain(put_all(q, infos), set![s], infos.len()).1 == infos,
        !pending_signals(drain(put_all(q, infos), set![s], infos.len()).0).contains(s),
{
    lemma_put_all_realtime(q, s, infos);
    lemma_put_all_wf(q, infos);
    let p = put_all(q, infos);
    assert(p[s] =~= infos);
    lemma_drain_one(p, s, infos.len());
    assert(infos.take(infos.len() as int) =~= infos);
    assert(infos.skip(infos.len() as int) =~= Seq::<SignalInfo>::empty());
}

/// A store of pending signals: a bit per pending signal, one slot per
/// standard signal (the first instance wins) and a FIFO queue per
/// real-time signal.
#[derive(Debug)]
pub struct PendingSignals {
    set: SignalSet,
    queues: Vec<Vec<SignalInfo>>,
}

impl View for PendingSignals {
    type V = PendingQueues;

    closed spec fn view(&self) -> PendingQueues {
        Map::new(|s: Signo| true, |s: Signo| self.queue(s))
    }
}

impl PendingSignals {
    closed spec fn queue(&self, s: Signo) -> Seq<SignalInfo> {
        self.queues@[s.nr() - 1]@
    }

    /// The store's invariant.
    pub closed spec fn wf(&self) -> bool {
        &&& self.queues.len() == 64
        &&& self.set@ == pending_signals(self@)
        &&& queues_wf(self@)
    }

    proof fn lemma_view(&self)
        ensures
            forall|s: Signo| #[trigger] self@[s] == self.queue(s),
            forall|s: Signo| #[trigger] self@.dom().contains(s),
    {
    }

    /// The model of a store that keeps its invariant is well formed.
    pub proof fn lemma_wf(&self)
        requires
            self.wf(),
        ensures
            queues_wf(self@),
    {
    }

    /// A store with nothing pending.
    pub fn new() -> (r: PendingSignals)
        ensures
            r.wf(),
            r@ == no_pending(),
    {
        let mut queues: Vec<Vec<SignalInfo>> = Vec::new();
        let mut i: usize = 0;
        while i < 64
            invariant
                i <= 64,
                queues.len() == i,
                forall|j: int| 0 <= j < i ==> (#[trigger] queues@[j])@.len() == 0,
            decreases 64 - i,
        {
            queues.push(Vec::new());
            i = i + 1;
        }
        let r = PendingSignals { set: SignalSet::new(), queues };
        proof {
            assert forall|s: Signo| #[trigger] r.queue(s) == Seq::<SignalInfo>::empty() by {
                lemma_nr_from_nr(s);
            }
            assert(r@ =~= no_pending());
            assert(pending_signals(r@) =~= Set::<Signo>::empty());
        }
        r
    }

    /// The signals with at least one pending instance.
    pub fn set(&self) -> (r: SignalSet)
        requires
            self.wf(),
        ensures
            r@ == pending_signals(self@),
    {
        self.set
    }

    /// Whether at least one instance of `signo` is pending.
    pub fn has_signal(&self, signo: Signo) -> (r: bool)
        requires
            self.wf(),
        ensures
            r == (self@[signo].len() > 0),
    {
        self.set.has(signo)
    }

    /// Adds `info` to the store. Returns whether it was taken: a standard
    /// signal is taken only when none of it is pending (otherwise `info` is
    /// dropped), a real-time one while its queue has room.
    pub fn put_signal(&mut self, info: SignalInfo) -> (r: bool)
        requires
            old(self).wf(),
        ensures
            final(self).wf(),
            r == accepts(old(self)@, info),
            final(self)@ == put_model(old(self)@, info),
    {
        let s = info.signo;
        let i = (s.number() - 1) as usize;
        proof {
            lemma_nr_from_nr(s);
            self.lemma_view();
        }
        let len = self.queues[i].len();
        if s.is_rt() {
            if len >= MAX_QUEUED_RT {
                return false;
            }
        } else if len > 0 {
            return false;
        }
        let ghost before = *self;
        self.queues[i].push(info);
        self.set.add(s);
        proof {
            self.lemma_view();
            before.lemma_view();
            assert forall|t: Signo| t != s implies #[trigger] self.queue(t) == before.queue(t) by {
                lemma_nr_from_nr(t);
                lemma_nr_injective(s, t);
            }
            assert(self.queue(s) == before.queue(s).push(info));
            assert(self@ =~= put_model(before@, info));
            lemma_put_wf(before@, info);
            assert(self.set@ =~= pending_signals(self@));
        }
        true
    }

    /// Takes out the oldest pending info of the signal with the smallest
    /// number that is pending and in `mask`; `None` if no such signal is
    /// pending.
    pub fn dequeue_signal(&mut self, mask: &SignalSet) -> (r: Option<SignalInfo>)
        requires
            old(self).wf(),
        ensures
            final(self).wf(),
            (final(self)@, r) == dequeue_model(old(self)@, mask@),
            r is None <==> pending_signals(old(self)@).disjoint(mask@),
    {
        proof {
            self.lemma_wf();
            lemma_dequeue(self@, mask@);
        }
        let mut candidates = self.set;
        let s = match candidates.dequeue(mask) {
            Some(s) => s,
            None => {
                return None;
            },
        };
        let i = (s.number() - 1) as usize;
        proof {
            lemma_nr_from_nr(s);
            self.lemma_view();
            lemma_lowest(self.set@.intersect(mask@));
        }
        let ghost before = *self;
        let info = self.queues[i].remove(0);
        if self.queues[i].len() == 0 {
            self.set.remove(s);
        }
        proof {
            self.lemma_view();
            before.lemma_view();
            assert forall|t: Signo| t != s implies #[trigger] self.queue(t) == before.queue(t) by {
                lemma_nr_from_nr(t);
                lemma_nr_injective(s, t);
            }
            assert(self.queue(s) =~= before.queue(s).drop_first());
            assert(self@ =~= before@.insert(s, before@[s].drop_first()));
            lemma_dequeue_wf(before@, mask@);
            assert(self.set@ =~= pending_signals(self@));
        }
        Some(info)
    }

    /// Discards every pending instance of `signo`.
    pub fn remove_signal(&mut self, signo: Signo)
        requires
            old(self).wf(),
        ensures
            final(self).wf(),
            final(self)@ == remove_model(old(self)@, signo),
    {
        let i = (signo.number() - 1) as usize;
        proof {
            lemma_nr_from_nr(signo);
        }
        let ghost before = *self;
        self.queues.set(i, Vec::new());
        self.set.remove(signo);
        proof {
            self.lemma_view();
            before.lemma_view();
            assert forall|t: Signo| t != signo implies #[trigger] self.queue(t) == before.queue(t) by {
                lemma_nr_from_nr(t);
                lemma_nr_injective(signo, t);
            }
            assert(self.queue(signo) =~= Seq::<SignalInfo>::empty());
            assert(self@ =~= remove_model(before@, signo));
            lemma_remove_wf(before@, signo);
            assert(self.set@ =~= pending_signals(self@));
        }
    }
}

impl Default for PendingSignals {
    fn default() -> (r: PendingSignals)
        ensures
            r.wf(),
            r@ == no_pending(),
    {
        PendingSignals::new()
    }
}

} // verus!
