use vstd::prelude::*;

verus! {

/// One step at the admission gate: a task takes a permit or gives one back.
#[derive(Clone, Copy, PartialEq, Eq, Structural, Debug)]
pub enum GateEvent {
    Acquire,
    Release,
}

/// How many permits are held after a trace of gate events.
pub open spec fn holders(trace: Seq<GateEvent>) -> int
    decreases trace.len(),
{
    if trace.len() == 0 {
        0
    } else if trace.last() == GateEvent::Acquire {
        holders(trace.drop_last()) + 1
    } else {
        holders(trace.drop_last()) - 1
    }
}

/// Whether a sequence of gate events can happen under capacity `c`: each
/// acquire finds a free permit, each release a held one.
pub open spec fn admissible(trace: Seq<GateEvent>, c: int) -> bool
    decreases trace.len(),
{
    trace.len() == 0 || {
        &&& admissible(trace.drop_last(), c)
        &&& (trace.last() == GateEvent::Acquire ==> holders(trace.drop_last()) < c)
        &&& (trace.last() == GateEvent::Release ==> holders(trace.drop_last()) > 0)
    }
}

/// Law: under an admissible trace, the number of held permits never leaves
/// `[0, c]` — at no instant do more than `c` tasks hold a permit.
pub proof fn lemma_permits_bounded(trace: Seq<GateEvent>, c: int)
    requires
        admissible(trace, c),
        c >= 0,
    ensures
        0 <= holders(trace) <= c,
    decreases trace.len(),
{
    if trace.len() > 0 {
        lemma_permits_bounded(trace.drop_last(), c);
    }
}

/// Every prefix of an admissible trace is admissible.
pub proof fn lemma_admissible_prefix(trace: Seq<GateEvent>, c: int, i: int)
    requires
        admissible(trace, c),
        0 <= i <= trace.len(),
    ensures
        admissible(trace.take(i), c),
    decreases trace.len(),
{
    if i < trace.len() {
        assert(trace.drop_last().take(i) =~= trace.take(i));
        lemma_admissible_prefix(trace.drop_last(), c, i);
    } else {
        assert(trace.take(i) =~= trace);
    }
}

/// Law: at no point during an admissible trace are more than `c` permits
/// held — the bound holds at every instant of the run, not only at its end.
pub proof fn lemma_permits_always_bounded(trace: Seq<GateEvent>, c: int)
    requires
        admissible(trace, c),
        c >= 0,
    ensures
        forall|i: int|
            0 <= i <= trace.len() ==> 0 <= #[trigger] holders(trace.take(i)) <= c,
{
    assert forall|i: int| 0 <= i <= trace.len() implies 0 <= #[trigger] holders(trace.take(i))
        <= c by {
        lemma_admissible_prefix(trace, c, i);
        lemma_permits_bounded(trace.take(i), c);
    }
}

/// The counting admission gate that bounds how many tasks may stream at
/// once: `capacity` permits, of which `in_use` are held. A ghost log of
/// every event links the exec gate to `admissible` and `holders`.
pub struct Gate {
    capacity: usize,
    in_use: usize,
    history: Ghost<Seq<GateEvent>>,
}

impl Gate {
    /// Well-formedness: the ghost log passes `admissible`, and the number
    /// of permits it leaves held is exactly `in_use`.
    pub closed spec fn wf(self) -> bool {
        &&& self.in_use as int == holders(self.history@)
        &&& admissible(self.history@, self.capacity as int)
    }

    /// The configured maximum concurrency.
    pub closed spec fn cap(self) -> int {
        self.capacity as int
    }

    /// How many permits are held right now.
    pub closed spec fn held(self) -> int {
        self.in_use as int
    }

    /// The trace of gate events so far.
    pub closed spec fn log(self) -> Seq<GateEvent> {
        self.history@
    }

    /// Law: a well-formed gate never over-admits — at most `cap` permits
    /// are held at any instant.
    pub proof fn lemma_gate_bounded(self)
        requires
            self.wf(),
        ensures
            0 <= self.held() <= self.cap(),
    {
        lemma_permits_bounded(self.history@, self.capacity as int);
    }

    /// A fresh gate with `capacity` permits, none held.
    pub fn new(capacity: usize) -> (r: Self)
        ensures
            r.wf(),
            r.cap() == capacity,
            r.held() == 0,
            r.log() == Seq::<GateEvent>::empty(),
    {
        Gate { capacity, in_use: 0, history: Ghost(Seq::empty()) }
    }

    /// Take a permit if one is free. Succeeds if and only if fewer than
    /// `cap` permits are held.
    pub fn try_acquire(&mut self) -> (r: bool)
        requires
            old(self).wf(),
        ensures
            final(self).wf(),
            final(self).cap() == old(self).cap(),
            r <==> old(self).held() < old(self).cap(),
            r ==> final(self).held() == old(self).held() + 1 && final(self).log() == old(
                self,
            ).log().push(GateEvent::Acquire),
            !r ==> *final(self) == *old(self),
    {
        proof {
            lemma_permits_bounded(self.history@, self.capacity as int);
        }
        if self.in_use < self.capacity {
            self.in_use = self.in_use + 1;
            proof {
                let h0 = self.history@;
                self.history@ = self.history@.push(GateEvent::Acquire);
                assert(self.history@.drop_last() =~= h0);
            }
            true
        } else {
            false
        }
    }

    /// Give a held permit back. Every task releases its permit on every exit
    /// path, success and failure alike.
    pub fn release(&mut self)
        requires
            old(self).wf(),
            old(self).held() > 0,
        ensures
            final(self).wf(),
            final(self).cap() == old(self).cap(),
            final(self).held() == old(self).held() - 1,
            final(self).log() == old(self).log().push(GateEvent::Release),
    {
        self.in_use = self.in_use - 1;
        proof {
            let h0 = self.history@;
            self.history@ = self.history@.push(GateEvent::Release);
            assert(self.history@.drop_last() =~= h0);
        }
    }
}

} // verus!
