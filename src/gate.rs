//! The admission gate: a pool of permits that bounds how many jobs prove at
//! once.
use vstd::prelude::*;

verus! {

/// The abstract state of a gate: its capacity and the permits held.
pub ghost struct GateState {
    pub capacity: nat,
    pub active: nat,
}

/// An operation on a gate.
pub enum GateOp {
    Acquire,
    Release,
}

/// One operation: an acquire takes a permit when one is free; a release
/// returns one.
pub open spec fn gate_step(g: GateState, op: GateOp) -> GateState {
    match op {
        GateOp::Acquire => if g.active < g.capacity {
            GateState { active: g.active + 1, ..g }
        } else {
            g
        },
        GateOp::Release => if g.active > 0 {
            GateState { active: (g.active - 1) as nat, ..g }
        } else {
            g
        },
    }
}

/// The state after a sequence of operations.
pub open spec fn gate_run(g: GateState, ops: Seq<GateOp>) -> GateState
    decreases ops.len(),
{
    if ops.len() == 0 {
        g
    } else {
        gate_step(gate_run(g, ops.drop_last()), ops.last())
    }
}

/// A capacity token. It cannot be copied; returning it to its pool is the
/// only way its capacity returns to the pool.
pub struct Permit {
    held: (),
}

/// A fixed-capacity pool of permits.
pub struct AdmissionGate {
    capacity: usize,
    active: usize,
}

impl View for AdmissionGate {
    type V = GateState;

    closed spec fn view(&self) -> GateState {
        GateState { capacity: self.capacity as nat, active: self.active as nat }
    }
}

impl AdmissionGate {
    /// Permits held never exceed the capacity.
    pub open spec fn wf(&self) -> bool {
        self@.active <= self@.capacity
    }

    /// A gate of `capacity` permits, none held.
    pub fn new(capacity: usize) -> (r: Self)
        ensures
            r@ == (GateState { capacity: capacity as nat, active: 0 }),
            r.wf(),
    {
        AdmissionGate { capacity, active: 0 }
    }

    pub fn capacity(&self) -> (r: usize)
        ensures
            r as nat == self@.capacity,
    {
        self.capacity
    }

    /// The number of permits held.
    pub fn active(&self) -> (r: usize)
        ensures
            r as nat == self@.active,
    {
        self.active
    }

    /// The number of free permits.
    pub fn available(&self) -> (r: usize)
        requires
            self.wf(),
        ensures
            r as nat == self@.capacity - self@.active,
    {
        self.capacity - self.active
    }

    /// Takes a permit if one is free; returns `None` at once when the pool is
    /// full.
    pub fn try_acquire(&mut self) -> (r: Option<Permit>)
        requires
            old(self).wf(),
        ensures
            final(self).wf(),
            final(self)@ == gate_step(old(self)@, GateOp::Acquire),
            r is Some <==> old(self)@.active < old(self)@.capacity,
    {
        if self.active < self.capacity {
            self.active = self.active + 1;
            Some(Permit { held: () })
        } else {
            None
        }
    }

    /// Returns a permit to the pool.
    pub fn release(&mut self, permit: Permit)
        requires
            old(self).wf(),
        ensures
            final(self).wf(),
            final(self)@ == gate_step(old(self)@, GateOp::Release),
    {
        let Permit { held: _ } = permit;
        if self.active > 0 {
            self.active = self.active - 1;
        }
    }
}

/// Whatever the sequence of acquisitions and releases, even a burst of more
/// acquisitions than the capacity, the permits held never exceed the capacity.
pub proof fn lemma_active_never_exceeds_capacity(g: GateState, ops: Seq<GateOp>)
    requires
        g.active <= g.capacity,
    ensures
        forall|k: int| 0 <= k <= ops.len() ==> #[trigger] gate_run(g, ops.take(k)).active <= g.capacity,
        gate_run(g, ops).capacity == g.capacity,
    decreases ops.len(),
{
    if ops.len() > 0 {
        lemma_active_never_exceeds_capacity(g, ops.drop_last());
        assert forall|k: int| 0 <= k <= ops.len() implies #[trigger] gate_run(g, ops.take(k)).active
            <= g.capacity by {
            if k < ops.len() {
                assert(ops.take(k) =~= ops.drop_last().take(k));
            } else {
                assert(ops.take(k) =~= ops);
                assert(ops.drop_last().take(ops.len() - 1) =~= ops.drop_last());
            }
        }
    } else {
        assert(ops.take(0) =~= ops);
    }
}

} // verus!
