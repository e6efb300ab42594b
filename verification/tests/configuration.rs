use ghost_crab::cache::Network;
use ghost_crab::config::{
    find_entry, load, resolve, BlockHandlerConfig, Config, DataSource, MissingVariable,
    NetworkConfig, Template, Variable,
};
use ghost_crab::handler::ExecutionMode;

fn variable(name: &str, value: &str) -> Variable {
    Variable { name: String::from(name), value: String::from(value) }
}

fn env() -> Vec<Variable> {
    vec![
        variable("DATABASE_URL", "postgres://localhost/indexer"),
        variable("MAINNET_RPC", "https://eth.example/rpc"),
        variable("EMPTY", ""),
        variable("", "nameless"),
    ]
}

fn config(database: &str, mainnet: &str) -> Config {
    Config {
        database: String::from(database),
        data_sources: vec![(
            String::from("Token"),
            DataSource {
                abi: String::from("abis/token.json"),
                address: String::from("0x1111111111111111111111111111111111111111"),
                start_block: 100,
                network: String::from("mainnet"),
                execution_mode: Some(ExecutionMode::Serial),
            },
        )],
        templates: vec![(
            String::from("Pool"),
            Template {
                abi: String::from("abis/pool.json"),
                network: String::from("mainnet"),
                execution_mode: None,
            },
        )],
        networks: vec![
            (
                String::from("mainnet"),
                NetworkConfig { rpc_url: String::from(mainnet), requests_per_second: 5 },
            ),
            (
                String::from("base"),
                NetworkConfig {
                    rpc_url: String::from("https://base.example/rpc"),
                    requests_per_second: 20,
                },
            ),
        ],
        block_handlers: vec![(
            String::from("EveryBlock"),
            BlockHandlerConfig {
                start_block: 10,
                network: String::from("base"),
                execution_mode: None,
                step: 100,
            },
        )],
    }
}

#[test]
fn plain_value_stands_for_itself() {
    assert_eq!(resolve(&String::from("https://x.example"), &env()), Some(String::from("https://x.example")));
    assert_eq!(resolve(&String::new(), &env()), Some(String::new()));
    assert_eq!(resolve(&String::from("a$b"), &env()), Some(String::from("a$b")));
}

#[test]
fn reference_is_replaced_by_the_variable() {
    assert_eq!(
        resolve(&String::from("$MAINNET_RPC"), &env()),
        Some(String::from("https://eth.example/rpc"))
    );
    assert_eq!(resolve(&String::from("$EMPTY"), &env()), Some(String::new()));
    assert_eq!(resolve(&String::from("$"), &env()), Some(String::from("nameless")));
}

#[test]
fn reference_to_an_unset_variable_is_missing() {
    assert_eq!(resolve(&String::from("$NOPE"), &env()), None);
    assert_eq!(resolve(&String::from("$mainnet_rpc"), &env()), None);
    assert_eq!(resolve(&String::from("$$MAINNET_RPC"), &env()), None);
    assert_eq!(resolve(&String::from("$MAINNET_RPC"), &Vec::new()), None);
}

#[test]
fn reference_with_characters_beyond_ascii() {
    let env = vec![variable("CLÉ", "valeur")];
    assert_eq!(resolve(&String::from("$CLÉ"), &env), Some(String::from("valeur")));
    assert_eq!(resolve(&String::from("é$CLÉ"), &env), Some(String::from("é$CLÉ")));
}

#[test]
fn first_variable_of_a_name_wins() {
    let env = vec![variable("A", "one"), variable("A", "two")];
    assert_eq!(resolve(&String::from("$A"), &env), Some(String::from("one")));
}

#[test]
fn load_fills_in_database_and_rpc_urls() {
    let loaded = load(config("$DATABASE_URL", "$MAINNET_RPC"), &env()).unwrap();
    assert_eq!(loaded, config("postgres://localhost/indexer", "https://eth.example/rpc"));
}

#[test]
fn load_keeps_a_configuration_without_references() {
    let loaded = load(config("postgres://db", "https://rpc"), &Vec::new()).unwrap();
    assert_eq!(loaded, config("postgres://db", "https://rpc"));
}

#[test]
fn load_fails_on_a_missing_database_variable() {
    assert_eq!(load(config("$NOPE", "https://rpc"), &env()), Err(MissingVariable));
}

#[test]
fn load_fails_on_a_missing_rpc_variable() {
    assert_eq!(load(config("postgres://db", "$NOPE"), &env()), Err(MissingVariable));
}

#[test]
fn registry_lists_the_networks_in_order() {
    let registry = config("db", "https://eth.example/rpc").registry();
    assert_eq!(
        registry,
        vec![
            Network {
                name: String::from("mainnet"),
                rpc_url: String::from("https://eth.example/rpc"),
                requests_per_second: 5
            },
            Network {
                name: String::from("base"),
                rpc_url: String::from("https://base.example/rpc"),
                requests_per_second: 20
            },
        ]
    );
}

#[test]
fn find_entry_gives_the_first_match() {
    let entries = vec![
        (String::from("a"), 1u8),
        (String::from("b"), 2u8),
        (String::from("a"), 3u8),
    ];
    assert_eq!(find_entry(&entries, &String::from("a")), Some(0));
    assert_eq!(find_entry(&entries, &String::from("b")), Some(1));
    assert_eq!(find_entry(&entries, &String::from("c")), None);
    assert_eq!(find_entry(&Vec::<(String, u8)>::new(), &String::from("a")), None);
}
