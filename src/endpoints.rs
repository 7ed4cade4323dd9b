use vstd::prelude::*;

verus! {

/// A node access point and its recent failure score.
#[derive(Clone, Debug)]
pub struct Endpoint {
    pub address: String,
    pub failures: u32,
}

/// The configured endpoints, never empty.
pub struct EndpointSet {
    pub endpoints: Vec<Endpoint>,
}

/// The failure scores of a list of endpoints, in order.
pub open spec fn scores(endpoints: Seq<Endpoint>) -> Seq<u32> {
    endpoints.map_values(|e: Endpoint| e.failures)
}

/// `k` is the first position of a lowest score.
pub open spec fn is_preferred(s: Seq<u32>, k: int) -> bool {
    &&& 0 <= k < s.len()
    &&& forall|j: int| 0 <= j < s.len() ==> s[k] <= #[trigger] s[j]
    &&& forall|j: int| 0 <= j < k ==> s[k] < #[trigger] s[j]
}

impl EndpointSet {
    pub open spec fn wf(&self) -> bool {
        self.endpoints@.len() > 0
    }

    /// Addresses of the endpoints, in order.
    pub open spec fn addresses(&self) -> Seq<Seq<char>> {
        self.endpoints@.map_values(|e: Endpoint| e.address@)
    }

    /// Builds a set in which every endpoint is healthy; `None` where there
    /// is no address.
    pub fn new(addresses: Vec<String>) -> (r: Option<EndpointSet>)
        ensures
            addresses@.len() == 0 <==> r.is_none(),
            r.is_some() ==> r.unwrap().wf() && r.unwrap().addresses() == addresses@.map_values(|a: String| a@)
                && scores(r.unwrap().endpoints@) == Seq::new(addresses@.len(), |i: int| 0u32),
    {
        if addresses.len() == 0 {
            return None;
        }
        let mut endpoints: Vec<Endpoint> = Vec::new();
        let mut rest = addresses;
        let ghost all = rest@;
        let mut i: usize = 0;
        while i < rest.len()
            invariant
                rest@ == all,
                i <= all.len(),
                endpoints@.len() == i,
                forall|j: int| 0 <= j < i ==> (#[trigger] endpoints@[j]).address@ == all[j]@ && endpoints@[j].failures == 0,
            decreases all.len() - i,
        {
            let a = rest[i].clone();
            endpoints.push(Endpoint { address: a, failures: 0 });
            i = i + 1;
        }
        let r = EndpointSet { endpoints };
        proof {
            assert(r.addresses() =~= all.map_values(|a: String| a@));
            assert(scores(r.endpoints@) =~= Seq::new(all.len(), |i: int| 0u32));
        }
        Some(r)
    }

    /// The endpoint to use now: the first one with the fewest recent failures.
    pub fn select(&self) -> (r: usize)
        requires
            self.wf(),
        ensures
            is_preferred(scores(self.endpoints@), r as int),
    {
        let ghost s = scores(self.endpoints@);
        let mut best: usize = 0;
        let mut i: usize = 1;
        while i < self.endpoints.len()
            invariant
                s == scores(self.endpoints@),
                1 <= i <= s.len(),
                best < i,
                forall|j: int| 0 <= j < i ==> s[best as int] <= #[trigger] s[j],
                forall|j: int| 0 <= j < best ==> s[best as int] < #[trigger] s[j],
            decreases s.len() - i,
        {
            if self.endpoints[i].failures < self.endpoints[best].failures {
                best = i;
            }
            i = i + 1;
        }
        best
    }

    /// Records a failure of endpoint `i` (the score saturates).
    pub fn mark_failed(&mut self, i: usize)
        requires
            i < old(self).endpoints@.len(),
        ensures
            final(self).addresses() == old(self).addresses(),
            scores(final(self).endpoints@) == scores(old(self).endpoints@).update(
                i as int,
                if old(self).endpoints@[i as int].failures == u32::MAX {
                    u32::MAX
                } else {
                    (old(self).endpoints@[i as int].failures + 1) as u32
                },
            ),
    {
        let f = self.endpoints[i].failures;
        let nf = if f == u32::MAX { f } else { f + 1 };
        let a = self.endpoints[i].address.clone();
        self.endpoints.set(i, Endpoint { address: a, failures: nf });
        proof {
            assert(self.addresses() =~= old(self).addresses());
            assert(scores(self.endpoints@) =~= scores(old(self).endpoints@).update(i as int, nf));
        }
    }

    /// Records that endpoint `i` answered: its failures are forgotten.
    pub fn mark_healthy(&mut self, i: usize)
        requires
            i < old(self).endpoints@.len(),
        ensures
            final(self).addresses() == old(self).addresses(),
            scores(final(self).endpoints@) == scores(old(self).endpoints@).update(i as int, 0u32),
    {
        let a = self.endpoints[i].address.clone();
        self.endpoints.set(i, Endpoint { address: a, failures: 0 });
        proof {
            assert(self.addresses() =~= old(self).addresses());
            assert(scores(self.endpoints@) =~= scores(old(self).endpoints@).update(i as int, 0u32));
        }
    }

    /// Lets time forgive failures: every score is halved.
    pub fn decay(&mut self)
        ensures
            final(self).addresses() == old(self).addresses(),
            scores(final(self).endpoints@) == scores(old(self).endpoints@).map_values(|f: u32| (f / 2) as u32),
    {
        let ghost before = self.endpoints@;
        let mut i: usize = 0;
        while i < self.endpoints.len()
            invariant
                self.endpoints@.len() == before.len(),
                i <= before.len(),
                forall|j: int| 0 <= j < before.len() ==> (#[trigger] self.endpoints@[j]).address == before[j].address,
                forall|j: int| 0 <= j < i ==> (#[trigger] self.endpoints@[j]).failures == before[j].failures / 2,
                forall|j: int| i <= j < before.len() ==> (#[trigger] self.endpoints@[j]).failures == before[j].failures,
            decreases before.len() - i,
        {
            let a = self.endpoints[i].address.clone();
            let f = self.endpoints[i].failures;
            self.endpoints.set(i, Endpoint { address: a, failures: f / 2 });
            i = i + 1;
        }
        proof {
            assert(self.addresses() =~= old(self).addresses());
            assert(scores(self.endpoints@) =~= scores(before).map_values(|f: u32| (f / 2) as u32));
        }
    }
}

} // verus!
