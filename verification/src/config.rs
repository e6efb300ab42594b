//! The indexer's configuration, and the filling in of values that the
//! configuration leaves to the environment.
//!
//! A database URL or an RPC URL that starts with `$` is not the value itself
//! but the name of an environment variable that holds it; `load` replaces
//! every such reference by the variable's value.

use vstd::prelude::*;
use vstd::string::*;
use crate::cache::Network;
use crate::handler::ExecutionMode;

verus! {

/// A contract that is deployed at run time: which interface it has and on
/// which network it will live.
#[derive(Debug, PartialEq, Eq)]
pub struct Template {
    pub abi: String,
    pub network: String,
    pub execution_mode: Option<ExecutionMode>,
}

/// A contract to index: its interface, its address, the block to start at
/// and its network.
#[derive(Debug, PartialEq, Eq)]
pub struct DataSource {
    pub abi: String,
    pub address: String,
    pub start_block: u64,
    pub network: String,
    pub execution_mode: Option<ExecutionMode>,
}

/// A handler that walks the blocks of a network: where it starts, how many
/// blocks it takes at once, and how its invocations are scheduled.
#[derive(Debug, PartialEq, Eq)]
pub struct BlockHandlerConfig {
    pub start_block: u64,
    pub network: String,
    pub execution_mode: Option<ExecutionMode>,
    pub step: u64,
}

/// An endpoint of a network and the request rate that it takes.
#[derive(Debug, PartialEq, Eq)]
pub struct NetworkConfig {
    pub rpc_url: String,
    pub requests_per_second: u64,
}

/// The whole configuration. Each list pairs a name with what it names.
#[derive(Debug, PartialEq, Eq)]
pub struct Config {
    pub database: String,
    pub data_sources: Vec<(String, DataSource)>,
    pub templates: Vec<(String, Template)>,
    pub networks: Vec<(String, NetworkConfig)>,
    pub block_handlers: Vec<(String, BlockHandlerConfig)>,
}

/// An environment variable.
#[derive(Debug, PartialEq, Eq)]
pub struct Variable {
    pub name: String,
    pub value: String,
}

/// A value refers to an environment variable that is not set.
#[derive(Clone, Copy, Debug, PartialEq, Eq, Structural)]
pub struct MissingVariable;

/// The names of a list of named entries, in their order.
pub open spec fn entry_names<T>(entries: Seq<(String, T)>) -> Seq<Seq<char>> {
    entries.map_values(|entry: (String, T)| entry.0@)
}

/// The place of the first entry called `name`, if there is one.
pub fn find_entry<T>(entries: &Vec<(String, T)>, name: &String) -> (index: Option<usize>)
    ensures
        index matches Some(i) ==> entry_names(entries@).index_of_first(name@) == Some(i as int)
            && i < entries@.len(),
        index is None ==> entry_names(entries@).index_of_first(name@) is None,
{
    let ghost names = entry_names(entries@);
    let mut i: usize = 0;
    while i < entries.len()
        invariant
            i <= entries.len(),
            names == entry_names(entries@),
            forall|j: int| 0 <= j < i ==> names[j] != name@,
        decreases entries.len() - i,
    {
        if entries[i].0 == *name {
            proof {
                assert(names[i as int] == name@);
                names.index_of_first_ensures(name@);
            }
            return Some(i);
        }
        i += 1;
    }
    proof {
        names.index_of_first_ensures(name@);
    }
    None
}

/// Whether a configured value is a reference to the environment.
pub open spec fn is_reference(value: Seq<char>) -> bool {
    value.len() > 0 && value[0] == '$'
}

/// The names of the variables, in their order.
pub open spec fn variable_names(env: Seq<Variable>) -> Seq<Seq<char>> {
    env.map_values(|variable: Variable| variable.name@)
}

/// What a configured value stands for in the environment `env`: itself
/// unless it is a reference, else the value of the first variable named by
/// what follows the `$`, if there is one.
pub open spec fn resolved(value: Seq<char>, env: Seq<Variable>) -> Option<Seq<char>> {
    if is_reference(value) {
        match variable_names(env).index_of_first(value.subrange(1, value.len() as int)) {
            Some(index) => Some(env[index].value@),
            None => None,
        }
    } else {
        Some(value)
    }
}

/// Whether `after` is the network entry `before` with its URL resolved.
pub open spec fn network_resolved(
    before: (String, NetworkConfig),
    after: (String, NetworkConfig),
    env: Seq<Variable>,
) -> bool {
    &&& after.0 == before.0
    &&& after.1.requests_per_second == before.1.requests_per_second
    &&& resolved(before.1.rpc_url@, env) == Some(after.1.rpc_url@)
}

/// Looks a configured value up in the environment.
pub fn resolve(value: &String, env: &Vec<Variable>) -> (result: Option<String>)
    ensures
        match resolved(value@, env@) {
            Some(text) => result matches Some(found) && found@ == text,
            None => result is None,
        },
{
    let text = value.as_str();
    let len = text.unicode_len();
    if len == 0 || text.get_char(0) != '$' {
        return Some(value.clone());
    }
    let name = text.substring_char(1, len);
    let wanted = name.to_owned();
    let ghost names = variable_names(env@);
    let mut i: usize = 0;
    while i < env.len()
        invariant
            i <= env.len(),
            names == variable_names(env@),
            name@ == value@.subrange(1, value@.len() as int),
            wanted@ == name@,
            is_reference(value@),
            forall|j: int| 0 <= j < i ==> names[j] != name@,
        decreases env.len() - i,
    {
        if env[i].name == wanted {
            proof {
                assert(names[i as int] == name@);
                names.index_of_first_ensures(name@);
            }
            return Some(env[i].value.clone());
        }
        i += 1;
    }
    proof {
        names.index_of_first_ensures(name@);
    }
    None
}

/// Replaces every reference to the environment in the database URL and in
/// the RPC URLs by the value of the variable.
///
/// Fails exactly when one of these values refers to a variable that `env`
/// does not hold. Names, request rates, data sources, templates and block
/// handlers are kept as they are.
pub fn load(config: Config, env: &Vec<Variable>) -> (loaded: Result<Config, MissingVariable>)
    ensures
        loaded is Ok <==> {
            &&& resolved(config.database@, env@) is Some
            &&& forall|i: int|
                0 <= i < config.networks@.len() ==> resolved(
                    #[trigger] config.networks@[i].1.rpc_url@,
                    env@,
                ) is Some
        },
        loaded matches Ok(result) ==> {
            &&& resolved(config.database@, env@) == Some(result.database@)
            &&& result.data_sources == config.data_sources
            &&& result.templates == config.templates
            &&& result.block_handlers == config.block_handlers
            &&& result.networks@.len() == config.networks@.len()
            &&& forall|i: int|
                0 <= i < config.networks@.len() ==> network_resolved(
                    config.networks@[i],
                    #[trigger] result.networks@[i],
                    env@,
                )
        },
{
    let database = match resolve(&config.database, env) {
        Some(database) => database,
        None => {
            return Err(MissingVariable);
        },
    };
    let mut networks: Vec<(String, NetworkConfig)> = Vec::new();
    let mut i: usize = 0;
    while i < config.networks.len()
        invariant
            i <= config.networks.len(),
            networks@.len() == i,
            forall|j: int|
                0 <= j < i ==> network_resolved(config.networks@[j], #[trigger] networks@[j], env@),
        decreases config.networks.len() - i,
    {
        let entry = &config.networks[i];
        match resolve(&entry.1.rpc_url, env) {
            Some(rpc_url) => {
                networks.push(
                    (
                        entry.0.clone(),
                        NetworkConfig {
                            rpc_url,
                            requests_per_second: entry.1.requests_per_second,
                        },
                    ),
                );
            },
            None => {
                return Err(MissingVariable);
            },
        }
        i += 1;
    }
    assert forall|k: int| 0 <= k < config.networks@.len() implies resolved(
        #[trigger] config.networks@[k].1.rpc_url@,
        env@,
    ) is Some by {
        assert(network_resolved(config.networks@[k], networks@[k], env@));
    }
    Ok(
        Config {
            database,
            data_sources: config.data_sources,
            templates: config.templates,
            networks,
            block_handlers: config.block_handlers,
        },
    )
}

impl Config {
    /// The networks of the configuration as the provider pool takes them.
    pub fn registry(&self) -> (networks: Vec<Network>)
        ensures
            networks@.len() == self.networks@.len(),
            forall|i: int|
                0 <= i < networks@.len() ==> {
                    &&& (#[trigger] networks@[i]).name == self.networks@[i].0
                    &&& networks@[i].rpc_url == self.networks@[i].1.rpc_url
                    &&& networks@[i].requests_per_second
                        == self.networks@[i].1.requests_per_second
                },
    {
        let mut networks: Vec<Network> = Vec::new();
        let mut i: usize = 0;
        while i < self.networks.len()
            invariant
                i <= self.networks.len(),
                networks@.len() == i,
                forall|j: int|
                    0 <= j < i ==> {
                        &&& (#[trigger] networks@[j]).name == self.networks@[j].0
                        &&& networks@[j].rpc_url == self.networks@[j].1.rpc_url
                        &&& networks@[j].requests_per_second
                            == self.networks@[j].1.requests_per_second
                    },
            decreases self.networks.len() - i,
        {
            let entry = &self.networks[i];
            networks.push(
                Network {
                    name: entry.0.clone(),
                    rpc_url: entry.1.rpc_url.clone(),
                    requests_per_second: entry.1.requests_per_second,
                },
            );
            i += 1;
        }
        networks
    }
}

} // verus!
