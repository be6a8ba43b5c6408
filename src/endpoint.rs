//! The endpoint pool: the configured RPC addresses, in order, with what the
//! latest connection attempt showed of each.
use vstd::prelude::*;

verus! {

/// What the latest connection attempt showed of an endpoint.
#[derive(Clone, Copy, Debug, PartialEq, Eq, Structural)]
pub enum Health {
    Unknown,
    Healthy,
    Unreachable,
}

/// The next thing to do while acquiring a session.
#[derive(Clone, Copy, Debug, PartialEq, Eq, Structural)]
pub enum AcquireStep {
    /// Try to connect to the endpoint at this index.
    Connect(usize),
    /// The connection to the endpoint at this index is up: use it.
    Use(usize),
    /// No endpoint is left to try.
    Exhausted,
}

pub struct EndpointPool {
    addresses: Vec<String>,
    health: Vec<Health>,
}

/// The step that follows a failed attempt at `index`, among `len` endpoints.
pub open spec fn after_failure(index: int, len: int) -> AcquireStep {
    if index + 1 < len {
        AcquireStep::Connect((index + 1) as usize)
    } else {
        AcquireStep::Exhausted
    }
}

impl EndpointPool {
    pub closed spec fn addresses_view(&self) -> Seq<Seq<char>> {
        self.addresses@.map_values(|a: String| a@)
    }

    pub closed spec fn health_view(&self) -> Seq<Health> {
        self.health@
    }

    /// One health entry per address.
    pub closed spec fn wf(&self) -> bool {
        self.addresses@.len() == self.health@.len()
    }

    pub open spec fn len_view(&self) -> int {
        self.health_view().len() as int
    }

    /// A pool of `addresses`, in the order given, none of them tried yet.
    pub fn new(addresses: Vec<String>) -> (r: EndpointPool)
        ensures
            r.wf(),
            r.addresses_view() == addresses@.map_values(|a: String| a@),
            r.health_view() == Seq::new(addresses@.len(), |i: int| Health::Unknown),
    {
        let mut health: Vec<Health> = Vec::new();
        let n = addresses.len();
        let mut i: usize = 0;
        while i < n
            invariant
                n == addresses@.len(),
                i <= n,
                health@ == Seq::new(i as nat, |k: int| Health::Unknown),
            decreases n - i,
        {
            health.push(Health::Unknown);
            i = i + 1;
            assert(health@ =~= Seq::new(i as nat, |k: int| Health::Unknown));
        }
        EndpointPool { addresses, health }
    }

    pub fn len(&self) -> (r: usize)
        requires
            self.wf(),
        ensures
            r == self.len_view(),
    {
        self.health.len()
    }

    /// The address of the endpoint at `index`.
    pub fn address(&self, index: usize) -> (r: &String)
        requires
            self.wf(),
            index < self.len_view(),
        ensures
            r@ == self.addresses_view()[index as int],
    {
        &self.addresses[index]
    }

    pub fn health(&self, index: usize) -> (r: Health)
        requires
            self.wf(),
            index < self.len_view(),
        ensures
            r == self.health_view()[index as int],
    {
        self.health[index]
    }

    /// The first step of an acquisition: the first endpoint in configured
    /// order, or exhaustion when there is none.
    pub fn begin_acquire(&self) -> (r: AcquireStep)
        requires
            self.wf(),
        ensures
            self.len_view() == 0 ==> r == AcquireStep::Exhausted,
            self.len_view() > 0 ==> r == AcquireStep::Connect(0),
    {
        if self.health.len() == 0 {
            AcquireStep::Exhausted
        } else {
            AcquireStep::Connect(0)
        }
    }

    /// Records how the attempt on the endpoint at `index` went and gives the
    /// next step: use it when it connected, else mark it unreachable and try
    /// the next one, or report exhaustion after the last.
    pub fn report(&mut self, index: usize, connected: bool) -> (r: AcquireStep)
        requires
            old(self).wf(),
            index < old(self).len_view(),
        ensures
            final(self).wf(),
            final(self).addresses_view() == old(self).addresses_view(),
            final(self).health_view() == old(self).health_view().update(
                index as int,
                if connected {
                    Health::Healthy
                } else {
                    Health::Unreachable
                },
            ),
            connected ==> r == AcquireStep::Use(index),
            !connected ==> r == after_failure(index as int, old(self).len_view()),
    {
        if connected {
            self.health.set(index, Health::Healthy);
            AcquireStep::Use(index)
        } else {
            self.health.set(index, Health::Unreachable);
            if index < self.health.len() - 1 {
                AcquireStep::Connect(index + 1)
            } else {
                AcquireStep::Exhausted
            }
        }
    }
}

} // verus!
