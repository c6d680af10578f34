//! Anonymous service discovery: the endpoints of the services discovered.

use vstd::prelude::*;

verus! {

/// A service the discovery engine reported.
pub struct DiscoveredService {
    pub name: String,
    pub endpoint: String,
}

/// Endpoints of a list of discovered services.
pub open spec fn endpoints(s: Seq<DiscoveredService>) -> Seq<Seq<char>> {
    s.map_values(|d: DiscoveredService| d.endpoint@)
}

/// The services the discovery engine last reported.
pub struct AnonymityDiscoveryService {
    discovered: Vec<DiscoveredService>,
}

impl AnonymityDiscoveryService {
    pub closed spec fn services(&self) -> Seq<DiscoveredService> {
        self.discovered@
    }

    /// A service that has discovered nothing yet.
    pub fn new() -> (r: AnonymityDiscoveryService)
        ensures
            r.services().len() == 0,
    {
        AnonymityDiscoveryService { discovered: Vec::new() }
    }

    /// Takes what a discovery round reported.
    pub fn record_discovered(&mut self, services: Vec<DiscoveredService>)
        ensures
            final(self).services() == services@,
    {
        self.discovered = services;
    }

    /// Endpoints of the discovered services, in the order reported.
    pub fn list_services(&self) -> (r: Vec<String>)
        ensures
            r@.map_values(|s: String| s@) == endpoints(self.services()),
    {
        let mut out: Vec<String> = Vec::new();
        let mut i: usize = 0;
        while i < self.discovered.len()
            invariant
                i <= self.discovered@.len(),
                out@.len() == i,
                forall|j: int| 0 <= j < i ==> (#[trigger] out@[j])@ == self.discovered@[j].endpoint@,
            decreases self.discovered@.len() - i,
        {
            out.push(self.discovered[i].endpoint.clone());
            i += 1;
        }
        assert(out@.map_values(|s: String| s@) =~= endpoints(self.services()));
        out
    }
}

} // verus!
