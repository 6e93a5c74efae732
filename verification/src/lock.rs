//! The shared-resource locking harness: a priority-ceiling critical-section
//! discipline for a single-core, priority-preemptive target.
//!
//! Every shared resource carries a static ceiling: the highest priority of
//! any context that touches it. A context that acquires a resource runs at
//! least at that ceiling until it releases it, so no concurrent context that
//! could also touch the resource can be scheduled meanwhile — mutual
//! exclusion without unbounded priority inversion. Nested acquisitions must
//! follow one global order, and by construction at most one nesting occurs:
//! the dispatch table outside, the backend handle inside.

use vstd::prelude::*;

verus! {

/// The shared resources of the dispatch core.
#[derive(Clone, Copy, Debug, PartialEq, Eq, Structural)]
pub enum ResourceId {
    /// The application dispatch table.
    DispatchTable,
    /// The backend service handle.
    BackendHandle,
    /// The USB transport classes.
    UsbTransport,
    /// The contactless transport.
    ContactlessTransport,
    /// The keepalive timer table.
    TimerTable,
    /// The contactless field sensor and clock control.
    FieldSensor,
}

/// Position of a resource in the one global acquisition order.
pub open spec fn spec_rank(r: ResourceId) -> int {
    match r {
        ResourceId::DispatchTable => 0,
        ResourceId::BackendHandle => 1,
        ResourceId::UsbTransport => 2,
        ResourceId::ContactlessTransport => 3,
        ResourceId::TimerTable => 4,
        ResourceId::FieldSensor => 5,
    }
}

/// Ceiling priority of a resource: the highest priority of any context that
/// touches it. Contactless field servicing preempts USB servicing, which
/// preempts backend-completion signalling, which preempts the UI refresh.
pub open spec fn spec_ceiling(r: ResourceId) -> u8 {
    match r {
        ResourceId::DispatchTable => 1,
        ResourceId::BackendHandle => 2,
        ResourceId::UsbTransport => 3,
        ResourceId::ContactlessTransport => 4,
        ResourceId::TimerTable => 7,
        ResourceId::FieldSensor => 8,
    }
}

/// Ceiling priority of a resource.
pub fn ceiling(r: ResourceId) -> (c: u8)
    ensures
        c == spec_ceiling(r),
{
    match r {
        ResourceId::DispatchTable => 1,
        ResourceId::BackendHandle => 2,
        ResourceId::UsbTransport => 3,
        ResourceId::ContactlessTransport => 4,
        ResourceId::TimerTable => 7,
        ResourceId::FieldSensor => 8,
    }
}

/// Position of a resource in the one global acquisition order.
pub fn rank(r: ResourceId) -> (n: u8)
    ensures
        n as int == spec_rank(r),
{
    match r {
        ResourceId::DispatchTable => 0,
        ResourceId::BackendHandle => 1,
        ResourceId::UsbTransport => 2,
        ResourceId::ContactlessTransport => 3,
        ResourceId::TimerTable => 4,
        ResourceId::FieldSensor => 5,
    }
}

/// One execution context (the idle loop or one interrupt handler) and the
/// resources it currently holds, innermost last.
pub struct LockHarness {
    base: u8,
    current: u8,
    held: Vec<ResourceId>,
    saved: Vec<u8>,
}

impl LockHarness {
    /// The context's own (base) priority.
    pub closed spec fn spec_base(&self) -> u8 {
        self.base
    }

    /// The priority the context is running at now.
    pub closed spec fn spec_current(&self) -> u8 {
        self.current
    }

    /// The resources held, outermost first.
    pub closed spec fn spec_held(&self) -> Seq<ResourceId> {
        self.held@
    }

    /// The priority-ceiling invariant: while a resource is held, the context
    /// runs at least at its ceiling (so no other context that touches it can
    /// be scheduled on the single core); held resources strictly follow the
    /// global acquisition order; and at most one nesting ever occurs, the
    /// dispatch table outside and the backend handle inside.
    pub closed spec fn wf(&self) -> bool {
        &&& self.held@.len() == self.saved@.len()
        &&& self.held@.len() <= 2
        &&& self.current >= self.base
        &&& (forall|i: int| 0 <= i < self.held@.len() ==> self.current >= spec_ceiling(
            #[trigger] self.held@[i],
        ))
        &&& (forall|i: int, j: int| 0 <= i < j < self.held@.len() ==> spec_rank(self.held@[i])
            < spec_rank(self.held@[j]))
        &&& (self.held@.len() == 0 ==> self.current == self.base)
        &&& (self.held@.len() >= 1 ==> self.saved@[0] == self.base)
        &&& (self.held@.len() == 2 ==> self.held@[0] == ResourceId::DispatchTable && self.held@[1]
            == ResourceId::BackendHandle)
        &&& (self.held@.len() == 2 ==> self.saved@[1] >= self.base && self.saved@[1] >= spec_ceiling(
            self.held@[0],
        ) && self.saved@[1] <= self.current)
    }

    /// A context at its base priority, holding nothing.
    pub fn new(base_priority: u8) -> (r: LockHarness)
        ensures
            r.wf(),
            r.spec_base() == base_priority,
            r.spec_current() == base_priority,
            r.spec_held().len() == 0,
    {
        LockHarness { base: base_priority, current: base_priority, held: Vec::new(), saved: Vec::new() }
    }

    /// The priority the context is running at now.
    pub fn current_priority(&self) -> (p: u8)
        ensures
            p == self.spec_current(),
    {
        self.current
    }

    /// Enter a resource's critical section: the context's priority is raised
    /// to at least the resource's ceiling until the matching `release`.
    /// Acquisitions must follow the global order, and the only permitted
    /// nesting is the backend handle inside the dispatch table.
    pub fn acquire(&mut self, r: ResourceId)
        requires
            old(self).wf(),
            old(self).spec_held().len() < 2,
            forall|i: int| 0 <= i < old(self).spec_held().len() ==> spec_rank(
                #[trigger] old(self).spec_held()[i],
            ) < spec_rank(r),
            old(self).spec_held().len() == 1 ==> old(self).spec_held()[0]
                == ResourceId::DispatchTable && r == ResourceId::BackendHandle,
        ensures
            final(self).wf(),
            final(self).spec_held() == old(self).spec_held().push(r),
            final(self).spec_base() == old(self).spec_base(),
            final(self).spec_current() >= spec_ceiling(r),
            final(self).spec_current() >= old(self).spec_current(),
    {
        let c = ceiling(r);
        self.saved.push(self.current);
        if c > self.current {
            self.current = c;
        }
        self.held.push(r);
    }

    /// Leave the innermost critical section, restoring the priority that was
    /// in force when it was entered.
    pub fn release(&mut self, r: ResourceId)
        requires
            old(self).wf(),
            old(self).spec_held().len() > 0,
            old(self).spec_held().last() == r,
        ensures
            final(self).wf(),
            final(self).spec_held() == old(self).spec_held().drop_last(),
            final(self).spec_base() == old(self).spec_base(),
    {
        let _ = self.held.pop();
        match self.saved.pop() {
            Some(p) => {
                self.current = p;
            },
            None => (),
        }
        proof {
            assert(self.held@ =~= old(self).held@.drop_last());
        }
    }
}

} // verus!
