use ghost_crab::cache::{Network, Provider, ProviderPool, UnknownNetwork};

fn networks() -> Vec<Network> {
    vec![
        Network {
            name: String::from("mainnet"),
            rpc_url: String::from("https://eth.example/rpc"),
            requests_per_second: 5,
        },
        Network {
            name: String::from("base"),
            rpc_url: String::from("https://base.example/rpc"),
            requests_per_second: 20,
        },
    ]
}

#[test]
fn first_request_opens_a_slot_with_the_configured_limit() {
    let mut pool = ProviderPool::new(networks());
    assert_eq!(pool.len(), 0);
    assert_eq!(
        pool.get("mainnet"),
        Ok(Provider::Create {
            slot: 0,
            rpc_url: String::from("https://eth.example/rpc"),
            requests_per_second: 5
        })
    );
    assert_eq!(pool.len(), 1);
}

#[test]
fn two_sources_on_mainnet_share_one_provider() {
    let mut pool = ProviderPool::new(networks());
    let first = pool.get("mainnet").unwrap();
    let second = pool.get("mainnet").unwrap();
    assert_eq!(second, Provider::Share { slot: 0 });
    assert_eq!(first.slot(), second.slot());
    assert_eq!(pool.len(), 1);
    let third = pool.get("mainnet").unwrap();
    assert_eq!(third, Provider::Share { slot: 0 });
    assert_eq!(pool.len(), 1);
}

#[test]
fn different_networks_get_different_slots() {
    let mut pool = ProviderPool::new(networks());
    let base = pool.get("base").unwrap();
    let mainnet = pool.get("mainnet").unwrap();
    assert_eq!(
        base,
        Provider::Create {
            slot: 0,
            rpc_url: String::from("https://base.example/rpc"),
            requests_per_second: 20
        }
    );
    assert_eq!(
        mainnet,
        Provider::Create {
            slot: 1,
            rpc_url: String::from("https://eth.example/rpc"),
            requests_per_second: 5
        }
    );
    assert_eq!(pool.get("base"), Ok(Provider::Share { slot: 0 }));
    assert_eq!(pool.get("mainnet"), Ok(Provider::Share { slot: 1 }));
    assert_eq!(pool.len(), 2);
}

#[test]
fn unknown_network_is_refused() {
    let mut pool = ProviderPool::new(networks());
    assert_eq!(pool.get("sepolia"), Err(UnknownNetwork));
    assert_eq!(pool.get(""), Err(UnknownNetwork));
    assert_eq!(pool.get("Mainnet"), Err(UnknownNetwork));
    assert_eq!(pool.len(), 0);
    assert!(pool.get("mainnet").is_ok());
    assert_eq!(pool.get("sepolia"), Err(UnknownNetwork));
    assert_eq!(pool.len(), 1);
}

#[test]
fn empty_registry_knows_no_network() {
    let mut pool = ProviderPool::new(Vec::new());
    assert_eq!(pool.get("mainnet"), Err(UnknownNetwork));
}

#[test]
fn first_of_two_entries_with_one_name_is_used() {
    let mut listed = networks();
    listed.push(Network {
        name: String::from("mainnet"),
        rpc_url: String::from("https://other.example/rpc"),
        requests_per_second: 99,
    });
    let mut pool = ProviderPool::new(listed);
    assert_eq!(
        pool.get("mainnet"),
        Ok(Provider::Create {
            slot: 0,
            rpc_url: String::from("https://eth.example/rpc"),
            requests_per_second: 5
        })
    );
}
