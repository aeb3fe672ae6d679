use near_lake_checkpoint::env::Env;
use near_lake_checkpoint::stream::{
    build_lake_config, init_lake_config, resolve_start_height, BootstrapError,
};

fn config(resume: bool, start: u64, test: bool) -> Env {
    Env {
        start_block_height_from_cache: resume,
        start_block_height: start,
        redis_url: "redis://localhost".to_string(),
        pub_list: "blocks".to_string(),
        mcs: "mcs.near".to_string(),
        test,
        log_file: "indexer.log".to_string(),
        log_level: "info".to_string(),
    }
}

#[test]
fn explicit_height_ignores_checkpoint() {
    let c = config(false, 500, false);
    assert_eq!(resolve_start_height(&c, None).unwrap(), 500);
    assert_eq!(resolve_start_height(&c, Some("1000".to_string())).unwrap(), 500);
    assert_eq!(resolve_start_height(&c, Some("garbage".to_string())).unwrap(), 500);
}

#[test]
fn resumes_after_checkpoint() {
    let c = config(true, 500, false);
    assert_eq!(resolve_start_height(&c, Some("1000".to_string())).unwrap(), 1001);
}

#[test]
fn resumes_from_one_without_checkpoint() {
    let c = config(true, 500, false);
    assert_eq!(resolve_start_height(&c, None).unwrap(), 1);
}

#[test]
fn corrupt_checkpoint_stops_resume() {
    let c = config(true, 500, false);
    match resolve_start_height(&c, Some("oops".to_string())) {
        Err(BootstrapError::CorruptCheckpoint { raw }) => assert_eq!(raw, "oops"),
        other => panic!("unexpected {:?}", other.map(|_| ())),
    }
}

#[test]
fn checkpoint_at_largest_height_has_no_successor() {
    let c = config(true, 500, false);
    let r = resolve_start_height(&c, Some(u64::MAX.to_string()));
    assert!(matches!(r, Err(BootstrapError::CheckpointAtMaximum)));
}

#[test]
fn builds_stream_config_for_both_networks() {
    assert!(build_lake_config(82422587, true).is_ok());
    assert!(build_lake_config(65231161, false).is_ok());
}

#[test]
fn lake_config_from_settings() {
    assert!(init_lake_config(&config(false, 500, true), None).is_ok());
    assert!(init_lake_config(&config(true, 500, false), Some("1000".to_string())).is_ok());
    assert!(matches!(
        init_lake_config(&config(true, 500, false), Some("x".to_string())),
        Err(BootstrapError::CorruptCheckpoint { .. })
    ));
}

#[test]
fn lake_config_surfaces_checkpoint_faults() {
    assert!(init_lake_config(&config(true, 500, true), None).is_ok());
    assert!(matches!(
        init_lake_config(&config(true, 500, false), Some(u64::MAX.to_string())),
        Err(BootstrapError::CheckpointAtMaximum)
    ));
    assert!(matches!(
        init_lake_config(&config(true, 500, false), Some("abc".to_string())),
        Err(BootstrapError::CorruptCheckpoint { .. })
    ));
}
