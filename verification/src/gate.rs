//! Admission control: a bound on the number of requests in flight.

use vstd::prelude::*;

verus! {

/// A gate as a plain value.
pub struct GateView {
    /// The largest number of slots that may be held at once.
    pub capacity: nat,
    /// The number of slots that are held.
    pub in_flight: nat,
}

/// What a caller may ask of a gate.
pub enum GateOp {
    /// Take a slot if one is free.
    Acquire,
    /// Give a held slot back.
    Release,
}

impl GateView {
    /// Whether no more slots are held than there are.
    pub open spec fn bounded(self) -> bool {
        self.in_flight <= self.capacity
    }

    /// Whether a slot is free.
    pub open spec fn admits(self) -> bool {
        self.in_flight < self.capacity
    }

    /// This gate after a caller asked for a slot: one more is held if one was
    /// free, and nothing has changed if none was.
    pub open spec fn acquired(self) -> GateView {
        if self.admits() {
            GateView { in_flight: self.in_flight + 1, ..self }
        } else {
            self
        }
    }

    /// This gate after a caller gave a slot back: one fewer is held, and
    /// nothing has changed if none was held.
    pub open spec fn released(self) -> GateView {
        if self.in_flight > 0 {
            GateView { in_flight: (self.in_flight - 1) as nat, ..self }
        } else {
            self
        }
    }

    /// This gate after one request.
    pub open spec fn step(self, op: GateOp) -> GateView {
        match op {
            GateOp::Acquire => self.acquired(),
            GateOp::Release => self.released(),
        }
    }

    /// This gate after the requests of `ops`, in order.
    pub open spec fn run(self, ops: Seq<GateOp>) -> GateView
        decreases ops.len(),
    {
        if ops.len() == 0 {
            self
        } else {
            self.step(ops.first()).run(ops.drop_first())
        }
    }
}

/// Whatever callers ask of a gate and in whatever order, it never holds more
/// slots than its capacity, at the end or at any moment before, and its
/// capacity stays what it was.
pub proof fn lemma_never_over_capacity(gate: GateView, ops: Seq<GateOp>)
    requires
        gate.bounded(),
    ensures
        gate.run(ops).bounded(),
        gate.run(ops).capacity == gate.capacity,
        forall|k: int| 0 <= k <= ops.len() ==> (#[trigger] gate.run(ops.take(k))).bounded(),
    decreases ops.len(),
{
    if ops.len() > 0 {
        lemma_never_over_capacity(gate.step(ops.first()), ops.drop_first());
    }
    assert forall|k: int| 0 <= k <= ops.len() implies (#[trigger] gate.run(ops.take(k))).bounded() by {
        lemma_run_is_bounded(gate, ops.take(k));
    }
}

/// A gate that holds no more slots than its capacity still does so after any
/// requests.
proof fn lemma_run_is_bounded(gate: GateView, ops: Seq<GateOp>)
    requires
        gate.bounded(),
    ensures
        gate.run(ops).bounded(),
    decreases ops.len(),
{
    if ops.len() > 0 {
        lemma_run_is_bounded(gate.step(ops.first()), ops.drop_first());
    }
}

/// A counter of the requests that are in flight, bounded by a fixed capacity.
///
/// It never blocks. A caller that is refused a slot waits until another
/// caller has released one, and asks again.
pub struct AdmissionGate {
    capacity: usize,
    in_flight: usize,
}

impl View for AdmissionGate {
    type V = GateView;

    closed spec fn view(&self) -> GateView {
        GateView { capacity: self.capacity as nat, in_flight: self.in_flight as nat }
    }
}

impl AdmissionGate {
    #[verifier::type_invariant]
    spec fn within_capacity(self) -> bool {
        self.in_flight <= self.capacity
    }

    /// A gate with `capacity` slots, none of them held.
    pub fn new(capacity: usize) -> (gate: Self)
        ensures
            gate@ == (GateView { capacity: capacity as nat, in_flight: 0 }),
    {
        AdmissionGate { capacity, in_flight: 0 }
    }

    /// The largest number of slots that may be held at once.
    pub fn capacity(&self) -> (n: usize)
        ensures
            n == self@.capacity,
    {
        self.capacity
    }

    /// The number of slots that are held. It is never more than the capacity.
    pub fn in_flight(&self) -> (n: usize)
        ensures
            n == self@.in_flight,
            self@.bounded(),
    {
        proof {
            use_type_invariant(self);
        }
        self.in_flight
    }

    /// Takes a slot if one is free, and says whether it did.
    pub fn try_acquire(&mut self) -> (admitted: bool)
        ensures
            admitted == old(self)@.admits(),
            final(self)@ == old(self)@.acquired(),
    {
        if self.in_flight < self.capacity {
            self.in_flight = self.in_flight + 1;
            true
        } else {
            false
        }
    }

    /// Gives a held slot back, and says whether there was one to give back.
    pub fn release(&mut self) -> (released: bool)
        ensures
            released == (old(self)@.in_flight > 0),
            final(self)@ == old(self)@.released(),
    {
        proof {
            use_type_invariant(&*self);
        }
        if self.in_flight > 0 {
            self.in_flight = self.in_flight - 1;
            true
        } else {
            false
        }
    }
}

} // verus!
