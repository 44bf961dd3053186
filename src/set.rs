use vstd::prelude::*;
use vstd::std_specs::bits::{axiom_u64_trailing_zeros, u64_trailing_zeros};

use crate::signo::{lemma_from_nr_nr, lemma_nr_from_nr, lemma_nr_injective, Signo};

verus! {

/// The position of a signal's bit in a set: bit `n - 1` for signal number `n`.
pub open spec fn bit_index(s: Signo) -> u64 {
    (s.nr() - 1) as u64
}

spec fn has_bit(bits: u64, i: u64) -> bool {
    bits & (1u64 << i) != 0
}

proof fn lemma_bits(a: u64, b: u64, i: u64, j: u64)
    by (bit_vector)
    requires
        i < 64,
        j < 64,
    ensures
        ((a | b) & (1u64 << i) != 0) == ((a & (1u64 << i) != 0) || (b & (1u64 << i) != 0)),
        ((a & b) & (1u64 << i) != 0) == ((a & (1u64 << i) != 0) && (b & (1u64 << i) != 0)),
        ((a & !b) & (1u64 << i) != 0) == ((a & (1u64 << i) != 0) && (b & (1u64 << i) == 0)),
        ((!a) & (1u64 << i) != 0) == (a & (1u64 << i) == 0),
        ((a | (1u64 << j)) & (1u64 << i) != 0) == (i == j || (a & (1u64 << i) != 0)),
        ((a & !(1u64 << j)) & (1u64 << i) != 0) == (i != j && (a & (1u64 << i) != 0)),
        (0u64 & (1u64 << i)) == 0,
        ((a >> i) & 1u64 == 1u64) == (a & (1u64 << i) != 0),
        ((a >> i) & 1u64 == 0u64) == (a & (1u64 << i) == 0),
{
}

/// A set of signals, one bit per signal number as in the kernel's `sigset_t`.
#[derive(Clone, Copy, Debug, PartialEq, Eq, Structural)]
pub struct SignalSet {
    bits: u64,
}

impl View for SignalSet {
    type V = Set<Signo>;

    closed spec fn view(&self) -> Set<Signo> {
        Set::new(|s: Signo| has_bit(self.bits, bit_index(s)))
    }
}

/// The smallest signal number of `set` at or above `n`, searched upwards.
pub open spec fn lowest_from(set: Set<Signo>, n: u32) -> Option<Signo>
    decreases 65 - n,
{
    if n == 0 || n > 64 {
        None
    } else {
        match Signo::from_nr(n) {
            Some(s) => if set.contains(s) {
                Some(s)
            } else {
                lowest_from(set, (n + 1) as u32)
            },
            None => None,
        }
    }
}

/// The signal with the smallest number in `set`, if `set` has one.
pub open spec fn lowest(set: Set<Signo>) -> Option<Signo> {
    lowest_from(set, 1)
}

/// What `lowest_from` finds: a member of the set at or above `n`, below every
/// other such member, and nothing only if there is no such member.
pub proof fn lemma_lowest_from(set: Set<Signo>, n: u32)
    requires
        1 <= n <= 65,
    ensures
        lowest_from(set, n) matches Some(s) ==> set.contains(s) && n <= s.nr() && (forall|t: Signo|
            set.contains(t) && n <= t.nr() ==> s.nr() <= t.nr()),
        lowest_from(set, n) is None ==> (forall|t: Signo| set.contains(t) ==> t.nr() < n),
    decreases 65 - n,
{
    if n <= 64 {
        lemma_from_nr_nr(n);
        let s = Signo::from_nr(n).unwrap();
        if !set.contains(s) {
            lemma_lowest_from(set, (n + 1) as u32);
            assert forall|t: Signo| set.contains(t) && n <= t.nr() implies n + 1 <= t.nr() by {
                lemma_nr_injective(s, t);
            }
        }
    } else {
        assert forall|t: Signo| set.contains(t) implies t.nr() < n by {
            lemma_nr_from_nr(t);
        }
    }
}

/// `lowest(set)` is the member of `set` with the smallest number, and is
/// `None` exactly when `set` is empty.
pub proof fn lemma_lowest(set: Set<Signo>)
    ensures
        lowest(set) matches Some(s) ==> set.contains(s) && (forall|t: Signo|
            #[trigger] set.contains(t) ==> s.nr() <= t.nr()),
        lowest(set) is None <==> set == Set::<Signo>::empty(),
{
    lemma_lowest_from(set, 1);
    if lowest(set) is None {
        assert forall|t: Signo| !set.contains(t) by {
            lemma_nr_from_nr(t);
        }
        assert(set =~= Set::<Signo>::empty());
    } else {
        assert forall|t: Signo| #[trigger] set.contains(t) implies lowest(set).unwrap().nr()
            <= t.nr() by {
            lemma_nr_from_nr(t);
        }
        assert(set.contains(lowest(set).unwrap()));
    }
}

impl SignalSet {
    /// The empty set.
    pub fn new() -> (r: SignalSet)
        ensures
            r@ == Set::<Signo>::empty(),
    {
        let r = SignalSet { bits: 0 };
        assert forall|s: Signo| !r@.contains(s) by {
            lemma_nr_from_nr(s);
            lemma_bits(0, 0, bit_index(s), 0);
        }
        assert(r@ =~= Set::<Signo>::empty());
        r
    }

    /// The set whose bits, signal number `n` at bit `n - 1`, are `bits`.
    pub fn from_bits(bits: u64) -> (r: SignalSet)
        ensures
            r.bits() == bits,
            forall|s: Signo| #[trigger] r@.contains(s) == (bits & (1u64 << bit_index(s)) != 0),
    {
        SignalSet { bits }
    }

    /// The bits of the set, signal number `n` at bit `n - 1`.
    pub closed spec fn bits(&self) -> u64 {
        self.bits
    }

    /// The bits of the set, signal number `n` at bit `n - 1`.
    #[verifier::when_used_as_spec(bits)]
    pub fn to_bits(&self) -> (r: u64)
        ensures
            r == self.bits(),
            forall|s: Signo| #[trigger] self@.contains(s) == (r & (1u64 << bit_index(s)) != 0),
    {
        self.bits
    }

    /// Whether `signal` is in the set.
    pub fn has(&self, signal: Signo) -> (r: bool)
        ensures
            r == self@.contains(signal),
    {
        let n = signal.number();
        self.bits & (1u64 << ((n - 1) as u64)) != 0
    }

    /// Adds `signal`; returns whether it was not in the set before.
    pub fn add(&mut self, signal: Signo) -> (r: bool)
        ensures
            r == !old(self)@.contains(signal),
            final(self)@ == old(self)@.insert(signal),
    {
        let n = signal.number();
        let bit = 1u64 << ((n - 1) as u64);
        if self.bits & bit != 0 {
            return false;
        }
        let ghost before = *self;
        self.bits = self.bits | bit;
        assert forall|s: Signo| self@.contains(s) == before@.insert(signal).contains(s) by {
            lemma_nr_from_nr(s);
            lemma_nr_injective(s, signal);
            lemma_bits(before.bits, 0, bit_index(s), bit_index(signal));
        }
        assert(self@ =~= before@.insert(signal));
        true
    }

    /// Removes `signal`; returns whether it was in the set before.
    pub fn remove(&mut self, signal: Signo) -> (r: bool)
        ensures
            r == old(self)@.contains(signal),
            final(self)@ == old(self)@.remove(signal),
    {
        let n = signal.number();
        let bit = 1u64 << ((n - 1) as u64);
        if self.bits & bit == 0 {
            assert(self@ =~= self@.remove(signal));
            return false;
        }
        let ghost before = *self;
        self.bits = self.bits & !bit;
        assert forall|s: Signo| self@.contains(s) == before@.remove(signal).contains(s) by {
            lemma_nr_from_nr(s);
            lemma_nr_injective(s, signal);
            lemma_bits(before.bits, 0, bit_index(s), bit_index(signal));
        }
        assert(self@ =~= before@.remove(signal));
        true
    }

    /// Whether the set has no member.
    pub fn is_empty(&self) -> (r: bool)
        ensures
            r == (self@ == Set::<Signo>::empty()),
    {
        let r = self.bits == 0;
        if r {
            assert forall|s: Signo| !self@.contains(s) by {
                lemma_nr_from_nr(s);
                lemma_bits(0, 0, bit_index(s), 0);
            }
            assert(self@ =~= Set::<Signo>::empty());
        } else {
            proof {
                let s = self.lowest_member();
                assert(self@.contains(s));
            }
        }
        r
    }

    /// A member of a set whose bits are not all zero.
    proof fn lowest_member(&self) -> (s: Signo)
        requires
            self.bits != 0,
        ensures
            self@.contains(s),
            s.nr() == u64_trailing_zeros(self.bits) + 1,
            forall|t: Signo| #[trigger] self@.contains(t) ==> s.nr() <= t.nr(),
    {
        let b = self.bits;
        broadcast use axiom_u64_trailing_zeros;

        let tz = u64_trailing_zeros(b);
        let i = tz as u64;
        assert(i < 64);
        lemma_bits(b, 0, i, 0);
        lemma_from_nr_nr((tz + 1) as u32);
        let s = Signo::from_nr((tz + 1) as u32).unwrap();
        assert forall|t: Signo| #[trigger] self@.contains(t) implies s.nr() <= t.nr() by {
            lemma_nr_from_nr(t);
            let j = bit_index(t);
            lemma_bits(b, 0, j, 0);
            if j < i {
                assert((b >> j) & 1u64 == 0u64);
            }
        }
        s
    }

    /// Adds every member of `other`.
    pub fn add_from(&mut self, other: &SignalSet)
        ensures
            final(self)@ == old(self)@.union(other@),
    {
        let ghost before = *self;
        self.bits = self.bits | other.bits;
        assert forall|s: Signo| self@.contains(s) == before@.union(other@).contains(s) by {
            lemma_nr_from_nr(s);
            lemma_bits(before.bits, other.bits, bit_index(s), 0);
        }
        assert(self@ =~= before@.union(other@));
    }

    /// Removes every member of `other`.
    pub fn remove_from(&mut self, other: &SignalSet)
        ensures
            final(self)@ == old(self)@.difference(other@),
    {
        let ghost before = *self;
        self.bits = self.bits & !other.bits;
        assert forall|s: Signo| self@.contains(s) == before@.difference(other@).contains(s) by {
            lemma_nr_from_nr(s);
            lemma_bits(before.bits, other.bits, bit_index(s), 0);
        }
        assert(self@ =~= before@.difference(other@));
    }

    /// The set of the signals in `self` or in `other`.
    pub fn union(&self, other: &SignalSet) -> (r: SignalSet)
        ensures
            r@ == self@.union(other@),
    {
        let mut r = *self;
        r.add_from(other);
        r
    }

    /// The set of the signals in both `self` and `other`.
    pub fn intersection(&self, other: &SignalSet) -> (r: SignalSet)
        ensures
            r@ == self@.intersect(other@),
    {
        let r = SignalSet { bits: self.bits & other.bits };
        assert forall|s: Signo| r@.contains(s) == self@.intersect(other@).contains(s) by {
            lemma_nr_from_nr(s);
            lemma_bits(self.bits, other.bits, bit_index(s), 0);
        }
        assert(r@ =~= self@.intersect(other@));
        r
    }

    /// The set of all the signals that are not in `self`.
    pub fn complement(&self) -> (r: SignalSet)
        ensures
            r@ == self@.complement(),
    {
        let r = SignalSet { bits: !self.bits };
        assert forall|s: Signo| r@.contains(s) == self@.complement().contains(s) by {
            lemma_nr_from_nr(s);
            lemma_bits(self.bits, 0, bit_index(s), 0);
        }
        assert(r@ =~= self@.complement());
        r
    }

    /// Takes out of the set, and returns, its signal with the smallest
    /// number among those that are also in `mask`.
    pub fn dequeue(&mut self, mask: &SignalSet) -> (r: Option<Signo>)
        ensures
            r == lowest(old(self)@.intersect(mask@)),
            final(self)@ == match r {
                Some(s) => old(self)@.remove(s),
                None => old(self)@,
            },
    {
        let both = self.intersection(mask);
        proof {
            lemma_lowest(both@);
        }
        if both.bits == 0 {
            assert(both@ =~= Set::<Signo>::empty()) by {
                assert forall|s: Signo| !both@.contains(s) by {
                    lemma_nr_from_nr(s);
                    lemma_bits(0, 0, bit_index(s), 0);
                }
            }
            None
        } else {
            let tz = both.bits.trailing_zeros();
            let ghost low = both.lowest_member();
            proof {
                lemma_nr_from_nr(low);
                let l = lowest(both@).unwrap();
                lemma_nr_injective(l, low);
            }
            let signal = match Signo::from_number(tz + 1) {
                Some(s) => s,
                None => {
                    return None;
                },
            };
            self.remove(signal);
            Some(signal)
        }
    }
}

impl Default for SignalSet {
    fn default() -> (r: SignalSet)
        ensures
            r@ == Set::<Signo>::empty(),
    {
        SignalSet::new()
    }
}

} // verus!
