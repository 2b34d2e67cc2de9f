//! Clients of S3, of which one is kept for each region.
use vstd::prelude::*;
use crate::text::{cat3, same_text};

verus! {

/// The clients that have been built so far, at most one for each region. Building a client is
/// expensive, and a client depends on its region alone.
#[derive(Debug)]
pub struct S3Clients<C> {
    clients: Vec<(String, C)>,
}

impl<C> S3Clients<C> {
    /// The clients, by region.
    pub closed spec fn by_region(&self) -> Map<Seq<char>, C> {
        region_map(self.clients@)
    }
}

/// The clients of a list, by region; the first of a region counts.
spec fn region_map<C>(clients: Seq<(String, C)>) -> Map<Seq<char>, C>
    decreases clients.len(),
{
    if clients.len() == 0 {
        Map::empty()
    } else {
        let rest = region_map(clients.drop_last());
        if rest.contains_key(clients.last().0@) {
            rest
        } else {
            rest.insert(clients.last().0@, clients.last().1)
        }
    }
}

proof fn lemma_region_map<C>(clients: Seq<(String, C)>, at: int)
    requires
        0 <= at < clients.len(),
        forall|j: int| 0 <= j < at ==> (#[trigger] clients[j]).0@ != clients[at].0@,
    ensures
        region_map(clients).contains_key(clients[at].0@),
        region_map(clients)[clients[at].0@] == clients[at].1,
    decreases clients.len(),
{
    let rest = clients.drop_last();
    if at < rest.len() {
        assert(rest[at] == clients[at]);
        assert forall|j: int| 0 <= j < at implies (#[trigger] rest[j]).0@ != rest[at].0@ by {
            assert(rest[j] == clients[j]);
        }
        lemma_region_map(rest, at);
    } else {
        lemma_region_absent(rest, clients[at].0@);
    }
}

proof fn lemma_region_absent<C>(clients: Seq<(String, C)>, region: Seq<char>)
    requires
        forall|j: int| 0 <= j < clients.len() ==> (#[trigger] clients[j]).0@ != region,
    ensures
        !region_map(clients).contains_key(region),
    decreases clients.len(),
{
    if clients.len() > 0 {
        let rest = clients.drop_last();
        assert forall|j: int| 0 <= j < rest.len() implies (#[trigger] rest[j]).0@ != region by {
            assert(rest[j] == clients[j]);
        }
        lemma_region_absent(rest, region);
        assert(clients[clients.len() - 1].0@ != region);
    }
}

/// The address at which S3 is reached in a region.
pub open spec fn s3_endpoint(region: Seq<char>) -> Seq<char> {
    "https://s3."@ + region + ".amazonaws.com"@
}

/// The address at which S3 is reached in a region.
pub fn endpoint_url(region: &str) -> (url: String)
    ensures
        url@ == s3_endpoint(region@),
{
    cat3("https://s3.", region, ".amazonaws.com")
}

impl<C> S3Clients<C> {
    /// No clients.
    pub fn new() -> (clients: Self)
        ensures
            clients.by_region() == Map::<Seq<char>, C>::empty(),
    {
        S3Clients { clients: Vec::new() }
    }

    fn position(&self, region: &str) -> (at: Option<usize>)
        ensures
            match at {
                Some(at) => at < self.clients@.len() && self.clients@[at as int].0@ == region@
                    && self.by_region().contains_key(region@) && self.by_region()[region@]
                    == self.clients@[at as int].1,
                None => !self.by_region().contains_key(region@),
            },
    {
        let mut i: usize = 0;
        while i < self.clients.len()
            invariant
                i <= self.clients@.len(),
                forall|j: int| 0 <= j < i ==> (#[trigger] self.clients@[j]).0@ != region@,
            decreases self.clients@.len() - i,
        {
            if same_text(self.clients[i].0.as_str(), region) {
                proof {
                    lemma_region_map(self.clients@, i as int);
                }
                return Some(i);
            }
            i += 1;
        }
        proof {
            lemma_region_absent(self.clients@, region@);
        }
        None
    }

    /// The client of a region, where there is one.
    pub fn get(&self, region: &str) -> (client: Option<&C>)
        ensures
            match client {
                Some(client) => self.by_region().contains_key(region@)
                    && self.by_region()[region@] == *client,
                None => !self.by_region().contains_key(region@),
            },
    {
        match self.position(region) {
            Some(at) => Some(&self.clients[at].1),
            None => None,
        }
    }

    /// Adds the client of a region, unless another was added in the meantime.
    pub fn add_if_absent(&mut self, region: &str, client: C)
        ensures
            final(self).by_region() == with_client(old(self).by_region(), region@, client),
    {
        if self.position(region).is_none() {
            let ghost before = self.clients@;
            self.clients.push((region.to_string(), client));
            assert(self.clients@.drop_last() =~= before);
        }
    }
}

/// The clients with one more, unless there is one for its region already.
pub open spec fn with_client<C>(
    clients: Map<Seq<char>, C>,
    region: Seq<char>,
    client: C,
) -> Map<Seq<char>, C> {
    if clients.contains_key(region) {
        clients
    } else {
        clients.insert(region, client)
    }
}

/// The first client of a region stays: a later one neither replaces it nor touches those of
/// other regions.
pub proof fn law_first_client_stays<C>(
    clients: Map<Seq<char>, C>,
    region: Seq<char>,
    first: C,
    other_region: Seq<char>,
    later: C,
)
    ensures
        with_client(with_client(clients, region, first), other_region, later).contains_key(region),
        with_client(with_client(clients, region, first), other_region, later)[region]
            == with_client(clients, region, first)[region],
{
}

/// S3 is reached at the host of the region, over HTTPS; at first there is no client.
pub proof fn law_regions_have_their_hosts<C>(
    region: &str,
    url: String,
    clients: S3Clients<C>,
    client: Option<&C>,
)
    requires
        call_ensures(endpoint_url, (region,), url),
        call_ensures(S3Clients::<C>::new, (), clients),
        call_ensures(S3Clients::<C>::get, (&clients, region), client),
    ensures
        url@ == "https://"@ + ("s3."@ + region@ + ".amazonaws.com"@),
        client is None,
{
    reveal_strlit("https://s3.");
    reveal_strlit("https://");
    reveal_strlit("s3.");
    assert("https://s3."@ =~= "https://"@ + "s3."@);
    assert(url@ =~= "https://"@ + ("s3."@ + region@ + ".amazonaws.com"@));
}

} // verus!
