use cache_n::config::PoolConfig;
use cache_n::store::{store_settings, StoreError};

fn config(url: &str, max_size: u32) -> PoolConfig {
    PoolConfig {
        url: url.to_string(),
        max_size,
    }
}

#[test]
fn new_refuses_malformed_url() {
    let r = store_settings(&config("not a url", 5));
    assert_eq!(r.err(), Some(StoreError::InvalidUrl));
}

#[test]
fn new_refuses_empty_pool() {
    let r = store_settings(&config("redis://localhost:6379/0", 0));
    assert_eq!(r.err(), Some(StoreError::EmptyPool));
}

#[test]
fn new_checks_url_before_pool_size() {
    let r = store_settings(&config("http://", 0));
    assert_eq!(r.err(), Some(StoreError::InvalidUrl));
}

#[test]
fn settings_keep_configured_pool_bound() {
    let r = store_settings(&config("redis://localhost:6379/0", 5));
    assert_eq!(r.ok().map(|s| s.max_size), Some(5));
}

#[test]
fn settings_keep_default_pool_bound() {
    let c = cache_n::config::pool_config(Some("redis://localhost:6379/0".to_string()), None)
        .unwrap();
    let r = store_settings(&c);
    assert_eq!(r.ok().map(|s| s.max_size), Some(50));
}
