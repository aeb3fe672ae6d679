use near_lake_checkpoint::env::{init_env_config, ConfigError, ConfigKey};

fn full_env() -> Vec<(String, String)> {
    vec![
        ("HOME".to_string(), "/root".to_string()),
        ("START_BLOCK_HEIGHT_FROM_CACHE".to_string(), "true".to_string()),
        ("START_BLOCK_HEIGHT".to_string(), "500".to_string()),
        ("REDIS_URL".to_string(), "redis://localhost:6379".to_string()),
        ("PUB_LIST".to_string(), "blocks".to_string()),
        ("MCS".to_string(), "mcs.near".to_string()),
        ("TEST".to_string(), "false".to_string()),
        ("LOG_FILE".to_string(), "/var/log/indexer.log".to_string()),
        ("LOG_LEVEL".to_string(), "info".to_string()),
    ]
}

const ALL_KEYS: [ConfigKey; 8] = [
    ConfigKey::StartBlockHeightFromCache,
    ConfigKey::StartBlockHeight,
    ConfigKey::RedisUrl,
    ConfigKey::PubList,
    ConfigKey::Mcs,
    ConfigKey::Test,
    ConfigKey::LogFile,
    ConfigKey::LogLevel,
];

#[test]
fn loads_every_field_from_the_environment() {
    let env = init_env_config(&full_env()).unwrap();
    assert!(env.start_block_height_from_cache);
    assert_eq!(env.start_block_height, 500);
    assert_eq!(env.redis_url, "redis://localhost:6379");
    assert_eq!(env.pub_list, "blocks");
    assert_eq!(env.mcs, "mcs.near");
    assert!(!env.test);
    assert_eq!(env.log_file, "/var/log/indexer.log");
    assert_eq!(env.log_level, "info");
}

#[test]
fn each_missing_entry_is_named() {
    for key in ALL_KEYS {
        let vars: Vec<(String, String)> =
            full_env().into_iter().filter(|(k, _)| k != key.name()).collect();
        match init_env_config(&vars) {
            Err(ConfigError::Missing { key: named }) => assert_eq!(named, key.name()),
            other => panic!("expected a missing entry for {}, got {:?}", key.name(), other),
        }
    }
}

#[test]
fn empty_environment_names_the_first_entry() {
    match init_env_config(&Vec::new()) {
        Err(ConfigError::Missing { key }) => assert_eq!(key, "START_BLOCK_HEIGHT_FROM_CACHE"),
        other => panic!("unexpected {:?}", other),
    }
}

#[test]
fn unreadable_flag_is_invalid() {
    let mut vars = full_env();
    vars[6].1 = "yes".to_string();
    match init_env_config(&vars) {
        Err(ConfigError::Invalid { key, value }) => {
            assert_eq!(key, "TEST");
            assert_eq!(value, "yes");
        }
        other => panic!("unexpected {:?}", other),
    }
}

#[test]
fn unreadable_height_is_invalid() {
    for bad in ["", "+", "-1", "12a", " 12", "18446744073709551616"] {
        let mut vars = full_env();
        vars[2].1 = bad.to_string();
        match init_env_config(&vars) {
            Err(ConfigError::Invalid { key, value }) => {
                assert_eq!(key, "START_BLOCK_HEIGHT");
                assert_eq!(value, bad);
            }
            other => panic!("unexpected {:?} for {:?}", other, bad),
        }
    }
}

#[test]
fn height_accepts_plus_sign_and_largest_value() {
    let mut vars = full_env();
    vars[2].1 = "+0042".to_string();
    assert_eq!(init_env_config(&vars).unwrap().start_block_height, 42);
    vars[2].1 = "18446744073709551615".to_string();
    assert_eq!(init_env_config(&vars).unwrap().start_block_height, u64::MAX);
}

#[test]
fn first_faulty_entry_wins() {
    let mut vars = full_env();
    vars[1].1 = "maybe".to_string();
    vars.remove(4);
    match init_env_config(&vars) {
        Err(ConfigError::Invalid { key, .. }) => assert_eq!(key, "START_BLOCK_HEIGHT_FROM_CACHE"),
        other => panic!("unexpected {:?}", other),
    }
}

#[test]
fn first_of_duplicate_entries_is_used() {
    let mut vars = full_env();
    vars.push(("LOG_LEVEL".to_string(), "debug".to_string()));
    assert_eq!(init_env_config(&vars).unwrap().log_level, "info");
}
