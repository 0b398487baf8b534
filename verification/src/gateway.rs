//! Picking the default gateway out of the routes that the caller's
//! networking layer reports.

use vstd::prelude::*;
use crate::mapping::GatewayAddress;

verus! {

/// One line of a routing table, as far as the search for the gateway reads
/// it.  A route that is delivered on the link itself has no gateway.
#[derive(Clone, Copy, Debug, PartialEq, Eq)]
pub struct Route {
    pub prefix_len: u8,
    pub gateway: Option<GatewayAddress>,
    pub metric: u32,
}

impl Route {
    /// A default route through a gateway.
    pub open spec fn leads_out(self) -> bool {
        self.prefix_len == 0 && self.gateway is Some
    }

    /// Whether this is a default route through a gateway.
    pub fn is_default(&self) -> (r: bool)
        ensures
            r == self.leads_out(),
    {
        self.prefix_len == 0 && self.gateway.is_some()
    }
}

/// Route `i` is the default route to use: none has a lower metric, and none
/// before it has the same.
pub open spec fn preferred(routes: Seq<Route>, i: int) -> bool {
    &&& 0 <= i < routes.len()
    &&& routes[i].leads_out()
    &&& forall|j: int|
        0 <= j < routes.len() && #[trigger] routes[j].leads_out() ==> {
            &&& routes[i].metric <= routes[j].metric
            &&& routes[j].metric == routes[i].metric ==> i <= j
        }
}

/// At most one route is preferred.
pub proof fn lemma_preferred_is_unique(routes: Seq<Route>, i: int, j: int)
    requires
        preferred(routes, i),
        preferred(routes, j),
    ensures
        i == j,
{
}

/// The gateway of the default route with the lowest metric, the first such
/// route where several have it; `None` where no default route has a gateway.
pub fn locate_gateway(routes: &Vec<Route>) -> (found: Option<GatewayAddress>)
    ensures
        found is None <==> forall|j: int|
            0 <= j < routes@.len() ==> !(#[trigger] routes@[j]).leads_out(),
        found is Some ==> exists|i: int| preferred(routes@, i),
        forall|i: int| #[trigger] preferred(routes@, i) ==> found == routes@[i].gateway,
{
    let mut best: Option<usize> = None;
    let mut k: usize = 0;
    while k < routes.len()
        invariant
            k <= routes@.len(),
            best is None ==> forall|j: int| 0 <= j < k ==> !(#[trigger] routes@[j]).leads_out(),
            best matches Some(b) ==> {
                &&& b < k
                &&& routes@[b as int].leads_out()
                &&& forall|j: int|
                    0 <= j < k && #[trigger] routes@[j].leads_out() ==> {
                        &&& routes@[b as int].metric <= routes@[j].metric
                        &&& routes@[j].metric == routes@[b as int].metric ==> b <= j
                    }
            },
        decreases routes@.len() - k,
    {
        if routes[k].is_default() {
            match best {
                Some(b) => {
                    if routes[k].metric < routes[b].metric {
                        best = Some(k);
                    }
                },
                None => {
                    best = Some(k);
                },
            }
        }
        k += 1;
    }
    match best {
        Some(b) => {
            assert(preferred(routes@, b as int));
            assert forall|i: int| #[trigger] preferred(routes@, i) implies i == b by {
                lemma_preferred_is_unique(routes@, i, b as int);
            }
            routes[b].gateway
        },
        None => None,
    }
}

} // verus!
