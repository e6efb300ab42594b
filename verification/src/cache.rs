//! One provider per network.
//!
//! The pool decides which connection a task uses. It hands out slots: the
//! first request for a network opens a new slot and tells the caller what to
//! connect to and how fast it may go; every later request for that network is
//! answered with the same slot. The caller keeps one connection, with its one
//! rate limiter, per slot, so all tasks of a network draw from one budget.

use vstd::prelude::*;

verus! {

/// A network as configured: where its endpoint is and how many requests per
/// second it takes.
#[derive(Debug, PartialEq, Eq)]
pub struct Network {
    pub name: String,
    pub rpc_url: String,
    pub requests_per_second: u64,
}

/// The answer of the pool to a request.
#[derive(Debug, PartialEq, Eq)]
pub enum Provider {
    /// The network had no connection yet: open one to `rpc_url`, limit it to
    /// `requests_per_second`, and keep it at `slot`.
    Create { slot: usize, rpc_url: String, requests_per_second: u64 },
    /// The network has a connection: share the one at `slot`.
    Share { slot: usize },
}

impl Provider {
    /// The slot that the answer speaks of.
    pub open spec fn spec_slot(&self) -> usize {
        match self {
            Provider::Create { slot, .. } => *slot,
            Provider::Share { slot } => *slot,
        }
    }

    /// The slot that the answer speaks of.
    pub fn slot(&self) -> (slot: usize)
        ensures
            slot == self.spec_slot(),
    {
        match self {
            Provider::Create { slot, .. } => *slot,
            Provider::Share { slot } => *slot,
        }
    }
}

/// The network that was asked for is not configured.
#[derive(Clone, Copy, Debug, PartialEq, Eq, Structural)]
pub struct UnknownNetwork;

/// The names of the networks, in their order.
pub open spec fn network_names(networks: Seq<Network>) -> Seq<Seq<char>> {
    networks.map_values(|network: Network| network.name@)
}

/// What a request for the network `name` does to the list of open slots, and
/// what it is answered with: the slot of the network if it has one; else a
/// new slot at the end of the list, for the first configured network of that
/// name; else nothing.
pub open spec fn resolve(networks: Seq<Network>, opened: Seq<Seq<char>>, name: Seq<char>) -> (
    Seq<Seq<char>>,
    Result<Provider, UnknownNetwork>,
) {
    match opened.index_of_first(name) {
        Some(slot) => (opened, Ok(Provider::Share { slot: slot as usize })),
        None => match network_names(networks).index_of_first(name) {
            Some(index) => (
                opened.push(name),
                Ok(
                    Provider::Create {
                        slot: opened.len() as usize,
                        rpc_url: networks[index].rpc_url,
                        requests_per_second: networks[index].requests_per_second,
                    },
                ),
            ),
            None => (opened, Err(UnknownNetwork)),
        },
    }
}

/// No two slots belong to the same network.
pub open spec fn distinct(opened: Seq<Seq<char>>) -> bool {
    forall|i: int, j: int| 0 <= i < j < opened.len() ==> opened[i] != opened[j]
}

/// The configured networks and the slots opened so far.
#[derive(Debug)]
pub struct ProviderPool {
    networks: Vec<Network>,
    opened: Vec<String>,
}

impl ProviderPool {
    /// The configured networks.
    pub closed spec fn networks(&self) -> Seq<Network> {
        self.networks@
    }

    /// The network of each open slot, by name.
    pub closed spec fn opened(&self) -> Seq<Seq<char>> {
        self.opened@.map_values(|name: String| name@)
    }

    /// Every slot belongs to a configured network, and no two to the same.
    pub open spec fn wf(&self) -> bool {
        &&& distinct(self.opened())
        &&& forall|i: int|
            0 <= i < self.opened().len() ==> network_names(self.networks()).contains(
                #[trigger] self.opened()[i],
            )
    }

    /// A pool for the given networks, with no slot open.
    pub fn new(networks: Vec<Network>) -> (pool: ProviderPool)
        ensures
            pool.networks() == networks@,
            pool.opened() == Seq::<Seq<char>>::empty(),
            pool.wf(),
    {
        let pool = ProviderPool { networks, opened: Vec::new() };
        assert(pool.opened() =~= Seq::<Seq<char>>::empty());
        pool
    }

    /// Number of slots opened so far.
    pub fn len(&self) -> (n: usize)
        ensures
            n == self.opened().len(),
    {
        self.opened.len()
    }

    /// The slot of the network `network`, where one is open.
    fn find_slot(&self, name: &String) -> (slot: Option<usize>)
        ensures
            slot matches Some(s) ==> self.opened().index_of_first(name@) == Some(s as int),
            slot is None ==> self.opened().index_of_first(name@) is None,
    {
        let ghost names = self.opened();
        let mut i: usize = 0;
        while i < self.opened.len()
            invariant
                i <= self.opened.len(),
                names == self.opened(),
                forall|j: int| 0 <= j < i ==> names[j] != name@,
            decreases self.opened.len() - i,
        {
            if self.opened[i] == *name {
                proof {
                    assert(names[i as int] == name@);
                    names.index_of_first_ensures(name@);
                }
                return Some(i);
            }
            i += 1;
        }
        proof {
            names.index_of_first_ensures(name@);
        }
        None
    }

    /// The first configured network called `name`, by its place in the list.
    fn find_network(&self, name: &String) -> (index: Option<usize>)
        ensures
            index matches Some(i) ==> network_names(self.networks()).index_of_first(name@)
                == Some(i as int),
            index is None ==> network_names(self.networks()).index_of_first(name@) is None,
    {
        let ghost names = network_names(self.networks());
        let mut i: usize = 0;
        while i < self.networks.len()
            invariant
                i <= self.networks.len(),
                names == network_names(self.networks()),
                names.len() == self.networks.len(),
                forall|j: int| 0 <= j < i ==> names[j] != name@,
            decreases self.networks.len() - i,
        {
            if self.networks[i].name == *name {
                proof {
                    assert(names[i as int] == name@);
                    names.index_of_first_ensures(name@);
                }
                return Some(i);
            }
            i += 1;
        }
        proof {
            names.index_of_first_ensures(name@);
        }
        None
    }

    /// Answers a request for the provider of `network`.
    ///
    /// Fails exactly when no network of that name is configured. The first
    /// request for a network opens the next slot; every later one is answered
    /// with that slot and opens nothing.
    pub fn get(&mut self, network: &str) -> (provider: Result<Provider, UnknownNetwork>)
        ensures
            (final(self).opened(), provider) == resolve(
                old(self).networks(),
                old(self).opened(),
                network@,
            ),
            final(self).networks() == old(self).networks(),
            old(self).wf() ==> final(self).wf(),
            old(self).wf() ==> (provider is Err <==> !network_names(
                old(self).networks(),
            ).contains(network@)),
    {
        let name = network.to_owned();
        proof {
            self.opened().index_of_first_ensures(network@);
            network_names(self.networks()).index_of_first_ensures(network@);
        }
        match self.find_slot(&name) {
            Some(slot) => Ok(Provider::Share { slot }),
            None => match self.find_network(&name) {
                Some(index) => {
                    let slot = self.opened.len();
                    let rpc_url = self.networks[index].rpc_url.clone();
                    let requests_per_second = self.networks[index].requests_per_second;
                    self.opened.push(name);
                    assert(final(self).opened() =~= old(self).opened().push(network@));
                    Ok(Provider::Create { slot, rpc_url, requests_per_second })
                },
                None => Err(UnknownNetwork),
            },
        }
    }
}

/// Asking twice for the same network gives the same slot, and the second
/// request opens nothing: whoever asks for a network shares its one
/// connection and its one limiter. A request that fails changes nothing.
pub proof fn lemma_same_network_same_slot(
    networks: Seq<Network>,
    opened: Seq<Seq<char>>,
    name: Seq<char>,
)
    requires
        opened.len() < usize::MAX,
    ensures
        ({
            let (after, first) = resolve(networks, opened, name);
            let (again, second) = resolve(networks, after, name);
            &&& first matches Ok(provider) ==> {
                &&& second == Ok::<Provider, UnknownNetwork>(
                    Provider::Share { slot: provider.spec_slot() },
                )
                &&& again == after
                &&& 0 <= provider.spec_slot() < after.len()
                &&& after[provider.spec_slot() as int] == name
            }
            &&& first is Err ==> after == opened && second is Err
        }),
{
    let (after, first) = resolve(networks, opened, name);
    opened.index_of_first_ensures(name);
    after.index_of_first_ensures(name);
    if opened.index_of_first(name) is None && first is Ok {
        assert(after[opened.len() as int] == name);
        assert(forall|j: int| 0 <= j < opened.len() ==> after[j] == opened[j]);
    }
}

/// Two different networks never share a slot, and a request for one network
/// leaves the slot of every other network as it was.
pub proof fn lemma_networks_keep_apart(
    networks: Seq<Network>,
    opened: Seq<Seq<char>>,
    name: Seq<char>,
    other: Seq<char>,
)
    requires
        opened.len() + 1 < usize::MAX,
        distinct(opened),
        name != other,
    ensures
        ({
            let (after, first) = resolve(networks, opened, name);
            let (last, second) = resolve(networks, after, other);
            &&& distinct(after)
            &&& distinct(last)
            &&& opened.index_of_first(other) matches Some(slot) ==> after.index_of_first(other)
                == Some(slot)
            &&& first matches Ok(one) ==> (second matches Ok(two) ==> one.spec_slot()
                != two.spec_slot())
        }),
{
    let (after, first) = resolve(networks, opened, name);
    let (last, second) = resolve(networks, after, other);
    opened.index_of_first_ensures(name);
    opened.index_of_first_ensures(other);
    after.index_of_first_ensures(name);
    after.index_of_first_ensures(other);
    last.index_of_first_ensures(other);
    lemma_same_network_same_slot(networks, opened, name);
    lemma_same_network_same_slot(networks, after, other);
    match opened.index_of_first(other) {
        Some(slot) => {
            assert(after[slot] == other);
            assert(forall|j: int| 0 <= j < opened.len() ==> after[j] == opened[j]);
        },
        None => {},
    }
}

} // verus!
